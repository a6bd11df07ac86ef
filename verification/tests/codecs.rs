//! Icon and season encodings.

use d2_weapon_filter::enums::PerkSlot;
use d2_weapon_filter::generic::{MiniIcon, MiniSeason};

#[test]
fn icon_parses_and_rebuilds_its_url() {
    let path = "/common/destiny2_content/icons/0f584e8a13b2cc4cb60379b1777362e5.jpg";
    let icon = MiniIcon::new(String::from(path)).unwrap();
    assert_eq!(
        icon.url(),
        "https://www.bungie.net/common/destiny2_content/icons/0f584e8a13b2cc4cb60379b1777362e5.jpg"
    );
}

#[test]
fn icon_parse_accepts_uppercase_hex_and_lowercases_it() {
    let path = "/common/destiny2_content/icons/0F584E8A13B2CC4CB60379B1777362E5.jpg";
    let icon = MiniIcon::new(String::from(path)).unwrap();
    assert_eq!(
        icon.url(),
        "https://www.bungie.net/common/destiny2_content/icons/0f584e8a13b2cc4cb60379b1777362e5.jpg"
    );
}

#[test]
fn icon_rejects_malformed_paths() {
    // wrong prefix
    assert!(MiniIcon::new(String::from(
        "/common/destiny2_content/screenshots/0f584e8a13b2cc4cb60379b1777362e5.jpg"
    ))
    .is_none());
    // wrong extension
    assert!(MiniIcon::new(String::from(
        "/common/destiny2_content/icons/0f584e8a13b2cc4cb60379b1777362e5.png"
    ))
    .is_none());
    // too short
    assert!(MiniIcon::new(String::from("/common/destiny2_content/icons/0f58.jpg")).is_none());
    // a non-hexadecimal digit in the identifier
    assert!(MiniIcon::new(String::from(
        "/common/destiny2_content/icons/zf584e8a13b2cc4cb60379b1777362e5.jpg"
    ))
    .is_none());
    // empty
    assert!(MiniIcon::new(String::new()).is_none());
}

#[test]
fn icon_words_round_trip() {
    let icon = MiniIcon::from_words(0x0f584e8a13b2cc4c, 0xb60379b1777362e5);
    assert_eq!(icon.words(), (0x0f584e8a13b2cc4c, 0xb60379b1777362e5));
    assert_eq!(
        icon.url(),
        "https://www.bungie.net/common/destiny2_content/icons/0f584e8a13b2cc4cb60379b1777362e5.jpg"
    );
    let parsed = MiniIcon::new(String::from(
        "/common/destiny2_content/icons/0f584e8a13b2cc4cb60379b1777362e5.jpg",
    ))
    .unwrap();
    assert_eq!(parsed.words(), icon.words());
}

#[test]
fn season_codes_round_trip() {
    let seasons = [
        MiniSeason::Unknown,
        MiniSeason::RedWar,
        MiniSeason::Forsaken,
        MiniSeason::Hunt,
        MiniSeason::WitchQueen,
        MiniSeason::Defiance,
    ];
    for s in seasons {
        assert_eq!(MiniSeason::from_code(s.code()), s);
    }
    assert_eq!(MiniSeason::from_code(26), MiniSeason::Unknown);
    assert_eq!(MiniSeason::from_code(255), MiniSeason::Unknown);
}

#[test]
fn season_icon_urls() {
    assert_eq!(MiniSeason::Unknown.icon_url(), None);
    assert_eq!(
        MiniSeason::RedWar.icon_url().unwrap(),
        "https://www.bungie.net/common/destiny2_content/icons/0dac2f181f0245cfc64494eccb7db9f7.png"
    );
    assert_eq!(
        MiniSeason::Defiance.icon_url().unwrap(),
        "https://www.bungie.net/common/destiny2_content/icons/e6af18ae79b74e76dab327ec183f8228.png"
    );
}

#[test]
fn season_from_icon_path() {
    assert_eq!(MiniSeason::from_icon_path(None), MiniSeason::RedWar);
    assert_eq!(
        MiniSeason::from_icon_path(Some(String::new())),
        MiniSeason::RedWar
    );
    assert_eq!(
        MiniSeason::from_icon_path(Some(String::from(
            "/common/destiny2_content/icons/2347cc2407b51e1debbac020bfcd0224.png"
        ))),
        MiniSeason::Hunt
    );
    assert_eq!(
        MiniSeason::from_icon_path(Some(String::from("not an icon path"))),
        MiniSeason::Unknown
    );
}

#[test]
fn season_numbers_match_the_watermark_table() {
    assert_eq!(MiniSeason::Unknown.season_number(), None);
    assert_eq!(MiniSeason::RedWar.season_number(), Some(1));
    assert_eq!(MiniSeason::Shadowkeep.season_number(), Some(8));
    assert_eq!(MiniSeason::Undying.season_number(), Some(8));
    assert_eq!(MiniSeason::Hunt.season_number(), Some(12));
    assert_eq!(MiniSeason::Anniversary.season_number(), Some(15));
    assert_eq!(MiniSeason::Defiance.season_number(), Some(20));
}

#[test]
fn perk_slot_of_index_covers_the_five_slots() {
    assert_eq!(PerkSlot::of_index(0), PerkSlot::Barrel);
    assert_eq!(PerkSlot::of_index(1), PerkSlot::Magazine);
    assert_eq!(PerkSlot::of_index(2), PerkSlot::Left);
    assert_eq!(PerkSlot::of_index(3), PerkSlot::Right);
    assert_eq!(PerkSlot::of_index(4), PerkSlot::Origin);
    assert_eq!(PerkSlot::of_index(5), PerkSlot::Unknown);
    assert_eq!(PerkSlot::of_index(100), PerkSlot::Unknown);
}
