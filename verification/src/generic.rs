//! Compact encodings for content-addressed icon references and the
//! season/watermark classification.

use vstd::prelude::*;
use vstd::string::StrSliceExecFns;
use vstd::string::StringExecFns;

use crate::text::push_char;
use crate::text::str_eq;

verus! {

/// `c` is an ASCII hexadecimal digit.
pub open spec fn is_hex_digit(c: char) -> bool {
    let v = c as int;
    (48 <= v && v <= 57) || (97 <= v && v <= 102) || (65 <= v && v <= 70)
}

/// The numeric value of one hexadecimal digit.
pub open spec fn hex_digit_val(c: char) -> int {
    let v = c as int;
    if 48 <= v && v <= 57 {
        v - 48
    } else if 97 <= v && v <= 102 {
        v - 87
    } else if 65 <= v && v <= 70 {
        v - 55
    } else {
        0
    }
}

/// Every character of `s` is a hexadecimal digit.
pub open spec fn all_hex(s: Seq<char>) -> bool {
    forall|i: int| 0 <= i < s.len() ==> is_hex_digit(#[trigger] s[i])
}

/// The value of `s` read as a big-endian hexadecimal numeral.
pub open spec fn hex_val(s: Seq<char>) -> int
    decreases s.len(),
{
    if s.len() == 0 {
        0
    } else {
        hex_val(s.drop_last()) * 16 + hex_digit_val(s.last())
    }
}

/// 16 to the power `n`.
pub open spec fn pow16(n: nat) -> int
    decreases n,
{
    if n == 0 {
        1
    } else {
        16 * pow16((n - 1) as nat)
    }
}

pub proof fn lemma_pow16_mono(a: nat, b: nat)
    requires
        a <= b,
    ensures
        0 < pow16(a) <= pow16(b),
    decreases b,
{
    if b == 0 {
    } else if a == b {
        lemma_pow16_mono((a - 1) as nat, (b - 1) as nat);
    } else {
        lemma_pow16_mono(a, (b - 1) as nat);
    }
}

proof fn lemma_hex_char_of_val(d: int)
    requires
        0 <= d < 16,
    ensures
        is_hex_digit(hex_char_of(d)),
        hex_digit_val(hex_char_of(d)) == d,
{
}

proof fn lemma_hex_chars_prefix(v: u64, k: int)
    requires
        0 <= k <= 16,
    ensures
        hex_val(hex_chars_of(v).take(k)) == (v as int) / pow16((16 - k) as nat),
    decreases k,
{
    let s = hex_chars_of(v);
    if k == 0 {
        assert(pow16(16nat) == 0x10000000000000000) by {
            reveal_with_fuel(pow16, 17);
        }
        vstd::arithmetic::div_mod::lemma_basic_div(v as int, pow16(16nat));
    } else {
        lemma_hex_chars_prefix(v, k - 1);
        let t = s.take(k);
        assert(t.drop_last() =~= s.take(k - 1));
        assert(t.last() == s[k - 1]);
        let b = pow16((16 - k) as nat);
        lemma_pow16_mono(0nat, (16 - k) as nat);
        let q = (v as int) / b;
        assert(pow16((17 - k) as nat) == 16 * b);
        vstd::arithmetic::div_mod::lemma_div_denominator(v as int, b, 16);
        vstd::arithmetic::div_mod::lemma_fundamental_div_mod(q, 16);
        assert(s[k - 1] == hex_char_of(nibble(v, k - 1)));
        lemma_hex_char_of_val(nibble(v, k - 1));
    }
}

/// The compact encoding is lossless: reading the 16-digit numeral of `v` back
/// as a hexadecimal numeral yields `v` again, and every digit of it is a
/// hexadecimal digit.
pub proof fn lemma_hex_numeral_round_trip(v: u64)
    ensures
        all_hex(hex_chars_of(v)),
        hex_val(hex_chars_of(v)) == v,
{
    let s = hex_chars_of(v);
    assert forall|i: int| 0 <= i < s.len() implies is_hex_digit(#[trigger] s[i]) by {
        lemma_pow16_mono(0nat, (15 - i) as nat);
        lemma_hex_char_of_val(nibble(v, i));
    }
    lemma_hex_chars_prefix(v, 16);
    assert(s.take(16) =~= s);
    assert(pow16(0nat) == 1);
    assert((v as int) / 1 == v as int);
}

/// The lowercase hexadecimal digit for value `d`.
pub open spec fn hex_char_of(d: int) -> char {
    if d == 0 {
        '0'
    } else if d == 1 {
        '1'
    } else if d == 2 {
        '2'
    } else if d == 3 {
        '3'
    } else if d == 4 {
        '4'
    } else if d == 5 {
        '5'
    } else if d == 6 {
        '6'
    } else if d == 7 {
        '7'
    } else if d == 8 {
        '8'
    } else if d == 9 {
        '9'
    } else if d == 10 {
        'a'
    } else if d == 11 {
        'b'
    } else if d == 12 {
        'c'
    } else if d == 13 {
        'd'
    } else if d == 14 {
        'e'
    } else {
        'f'
    }
}

/// The digit of `v` at big-endian position `i` of its 16-digit numeral.
pub open spec fn nibble(v: u64, i: int) -> int {
    ((v as int) / pow16((15 - i) as nat)) % 16
}

/// The 16-digit lowercase hexadecimal numeral of `v`.
pub open spec fn hex_chars_of(v: u64) -> Seq<char> {
    Seq::new(16, |i: int| hex_char_of(nibble(v, i)))
}

/// The path prefix under which the content service serves icons.
pub open spec fn icon_path_prefix() -> Seq<char> {
    "/common/destiny2_content/icons/"@
}

/// A well-formed compact icon path: the icon directory prefix, a 128-bit
/// identifier written as 32 hexadecimal digits, and the `.jpg` extension.
pub open spec fn is_valid_icon_path(s: Seq<char>) -> bool {
    &&& s.len() == 67
    &&& s.subrange(0, 31) == icon_path_prefix()
    &&& s.subrange(63, 67) == ".jpg"@
    &&& all_hex(s.subrange(31, 63))
}

/// A content-addressed image identifier: two 64-bit words hold the 128-bit
/// hexadecimal identifier of the icon. Convertible losslessly to and from the
/// external URL form; not part of the filtering logic.
#[derive(Debug, Clone, Copy)]
pub struct MiniIcon {
    icon_array: [u64; 2],
}

impl MiniIcon {
    /// The high word: the value of the first 16 hexadecimal digits.
    pub closed spec fn word0(self) -> u64 {
        self.icon_array[0]
    }

    /// The low word: the value of the last 16 hexadecimal digits.
    pub closed spec fn word1(self) -> u64 {
        self.icon_array[1]
    }

    /// The full URL under which the encoded icon is served.
    pub open spec fn spec_url(self) -> Seq<char> {
        "https://www.bungie.net"@ + icon_path_prefix() + hex_chars_of(self.word0())
            + hex_chars_of(self.word1()) + ".jpg"@
    }

    /// Assemble the compact encoding from its two persisted words.
    pub fn from_words(high: u64, low: u64) -> (r: MiniIcon)
        ensures
            r.word0() == high && r.word1() == low,
    {
        MiniIcon { icon_array: [high, low] }
    }

    /// The two words of the compact encoding, for persisting.
    pub fn words(&self) -> (r: (u64, u64))
        ensures
            r.0 == self.word0() && r.1 == self.word1(),
    {
        (self.icon_array[0], self.icon_array[1])
    }

    /// Parse the compact encoding out of an icon path. Returns `None` exactly
    /// when the path is not of the well-formed shape.
    pub fn new(url: String) -> (r: Option<MiniIcon>)
        ensures
            r is Some <==> is_valid_icon_path(url@),
            r matches Some(ic) ==> ic.word0() == hex_val(url@.subrange(31, 47)) && ic.word1()
                == hex_val(url@.subrange(47, 63)),
    {
        let s = url.as_str();
        let len = s.unicode_len();
        if len != 67 {
            return None;
        }
        let pre = s.substring_char(0, 31);
        if !str_eq(pre, "/common/destiny2_content/icons/") {
            return None;
        }
        let suf = s.substring_char(63, 67);
        if !str_eq(suf, ".jpg") {
            return None;
        }
        let w0 = match parse_hex16(s, 31) {
            Some(v) => v,
            None => {
                proof {
                    lemma_hex_block(url@, 31);
                }
                return None;
            },
        };
        let w1 = match parse_hex16(s, 47) {
            Some(v) => v,
            None => {
                proof {
                    lemma_hex_block(url@, 47);
                }
                return None;
            },
        };
        proof {
            assert(all_hex(url@.subrange(31, 63))) by {
                assert forall|i: int| 0 <= i < 32 implies is_hex_digit(
                    #[trigger] url@.subrange(31, 63)[i],
                ) by {
                    if i < 16 {
                        assert(url@.subrange(31, 47)[i] == url@.subrange(31, 63)[i]);
                    } else {
                        assert(url@.subrange(47, 63)[i - 16] == url@.subrange(31, 63)[i]);
                    }
                }
            }
        }
        Some(MiniIcon { icon_array: [w0, w1] })
    }

    /// Rebuild the external URL form of the icon.
    pub fn url(&self) -> (r: String)
        ensures
            r@ == self.spec_url(),
    {
        let mut out = String::from_str("https://www.bungie.net/common/destiny2_content/icons/");
        proof {
            reveal_strlit("https://www.bungie.net/common/destiny2_content/icons/");
            reveal_strlit("https://www.bungie.net");
            reveal_strlit("/common/destiny2_content/icons/");
            assert(out@ =~= "https://www.bungie.net"@ + icon_path_prefix());
        }
        push_hex16(&mut out, self.icon_array[0]);
        push_hex16(&mut out, self.icon_array[1]);
        let r = out.concat(".jpg");
        proof {
            assert(r@ =~= self.spec_url());
        }
        r
    }
}

/// If each half of a 32-digit block is hexadecimal, so is the block, and a
/// non-hexadecimal character in either half refutes the block.
proof fn lemma_hex_block(s: Seq<char>, start: int)
    requires
        s.len() == 67,
        start == 31 || start == 47,
        !all_hex(s.subrange(start, start + 16)),
    ensures
        !all_hex(s.subrange(31, 63)),
{
    let j = choose|j: int|
        0 <= j < 16 && !is_hex_digit(#[trigger] s.subrange(start, start + 16)[j]);
    assert(s.subrange(31, 63)[start - 31 + j] == s.subrange(start, start + 16)[j]);
}

/// Read 16 hexadecimal digits of `s` starting at character `start`.
fn parse_hex16(s: &str, start: usize) -> (r: Option<u64>)
    requires
        s@.len() <= usize::MAX,
        start + 16 <= s@.len(),
    ensures
        r is Some <==> all_hex(s@.subrange(start as int, start + 16)),
        r matches Some(v) ==> v == hex_val(s@.subrange(start as int, start + 16)),
{
    let mut v: u64 = 0;
    let mut j: usize = 0;
    while j < 16
        invariant
            j <= 16,
            s@.len() <= usize::MAX,
            start + 16 <= s@.len(),
            all_hex(s@.subrange(start as int, start + j)),
            v == hex_val(s@.subrange(start as int, start + j)),
            v < pow16(j as nat),
        decreases 16 - j,
    {
        let c = s.get_char(start + j);
        let cv = c as u32;
        let d: u64 = if 48 <= cv && cv <= 57 {
            (cv - 48) as u64
        } else if 97 <= cv && cv <= 102 {
            (cv - 87) as u64
        } else if 65 <= cv && cv <= 70 {
            (cv - 65 + 10) as u64
        } else {
            proof {
                assert(s@.subrange(start as int, start + 16)[j as int] == s@[start + j]);
            }
            return None;
        };
        proof {
            assert(d == hex_digit_val(c) && d < 16);
            lemma_pow16_mono(j as nat, 15);
            assert(pow16(16) == 16 * pow16(15));
            assert(v * 16 + d < pow16((j + 1) as nat)) by {
                assert(pow16((j + 1) as nat) == 16 * pow16(j as nat));
            }
            assert(v * 16 + d <= u64::MAX) by {
                assert(pow16(16nat) == 0x10000000000000000) by {
                    reveal_with_fuel(pow16, 17);
                }
                lemma_pow16_mono((j + 1) as nat, 16);
            }
        }
        let ghost prev = s@.subrange(start as int, start + j);
        v = v * 16 + d;
        j += 1;
        proof {
            let cur = s@.subrange(start as int, start + j);
            assert(cur.drop_last() =~= prev);
            assert(cur.last() == c);
        }
    }
    proof {
        assert(s@.subrange(start as int, start + 16) == s@.subrange(start as int, start + j));
    }
    Some(v)
}

/// Append the 16-digit hexadecimal numeral of `v` to `out`.
fn push_hex16(out: &mut String, v: u64)
    ensures
        final(out)@ == old(out)@ + hex_chars_of(v),
{
    let mut p: u64 = 0x1000000000000000;
    let mut i: usize = 0;
    proof {
        assert(pow16(15nat) == 0x1000000000000000) by {
            reveal_with_fuel(pow16, 16);
        }
    }
    while i < 16
        invariant
            i <= 16,
            i < 16 ==> p as int == pow16((15 - i) as nat),
            out@ == old(out)@ + hex_chars_of(v).take(i as int),
        decreases 16 - i,
    {
        proof {
            lemma_pow16_mono(0nat, (15 - i) as nat);
        }
        let d = (v / p) % 16;
        assert(d == nibble(v, i as int));
        let c = hex_char(d);
        push_char(out, c);
        proof {
            assert(hex_chars_of(v).take(i + 1) =~= hex_chars_of(v).take(i as int).push(
                hex_chars_of(v)[i as int],
            ));
            assert(hex_chars_of(v)[i as int] == c);
            if i + 1 < 16 {
                assert(pow16((15 - i) as nat) == 16 * pow16((14 - i) as nat));
                assert(p as int / 16 == pow16((14 - i) as nat));
            }
        }
        p = p / 16;
        i += 1;
    }
    proof {
        assert(hex_chars_of(v).take(16) =~= hex_chars_of(v));
    }
}

/// The lowercase hexadecimal digit character for `d`.
fn hex_char(d: u64) -> (c: char)
    requires
        d < 16,
    ensures
        c == hex_char_of(d as int),
{
    match d {
        0 => '0',
        1 => '1',
        2 => '2',
        3 => '3',
        4 => '4',
        5 => '5',
        6 => '6',
        7 => '7',
        8 => '8',
        9 => '9',
        10 => 'a',
        11 => 'b',
        12 => 'c',
        13 => 'd',
        14 => 'e',
        _ => 'f',
    }
}

/// Season/watermark classification of an item, resolved from an external
/// watermark-icon identifier; unknown identifiers map to `Unknown` rather
/// than failing. Not part of the filtering logic beyond plain equality.
#[derive(Debug, Clone, Copy, PartialEq, Eq, Structural)]
pub enum MiniSeason {
    Unknown,
    RedWar,
    CurseOfOsiris,
    Warmind,
    Forsaken,
    Forge,
    Drifter,
    Opulence,
    Shadowkeep,
    Undying,
    Dawn,
    Worthy,
    Arrivals,
    BeyondLight,
    Hunt,
    Chosen,
    Splicer,
    Lost,
    Anniversary,
    WitchQueen,
    Risen,
    Haunted,
    Plunder,
    Seraph,
    LightFall,
    Defiance,
}

/// The view of an optional string.
pub open spec fn opt_str_view(p: Option<String>) -> Option<Seq<char>> {
    match p {
        Some(s) => Some(s@),
        None => None,
    }
}

impl MiniSeason {
    /// The compact numeric code of the season, as persisted storage holds it.
    pub open spec fn spec_code(self) -> u8 {
        match self {
            MiniSeason::Unknown => 0u8,
            MiniSeason::RedWar => 1u8,
            MiniSeason::CurseOfOsiris => 2u8,
            MiniSeason::Warmind => 3u8,
            MiniSeason::Forsaken => 4u8,
            MiniSeason::Forge => 5u8,
            MiniSeason::Drifter => 6u8,
            MiniSeason::Opulence => 7u8,
            MiniSeason::Shadowkeep => 8u8,
            MiniSeason::Undying => 9u8,
            MiniSeason::Dawn => 10u8,
            MiniSeason::Worthy => 11u8,
            MiniSeason::Arrivals => 12u8,
            MiniSeason::BeyondLight => 13u8,
            MiniSeason::Hunt => 14u8,
            MiniSeason::Chosen => 15u8,
            MiniSeason::Splicer => 16u8,
            MiniSeason::Lost => 17u8,
            MiniSeason::Anniversary => 18u8,
            MiniSeason::WitchQueen => 19u8,
            MiniSeason::Risen => 20u8,
            MiniSeason::Haunted => 21u8,
            MiniSeason::Plunder => 22u8,
            MiniSeason::Seraph => 23u8,
            MiniSeason::LightFall => 24u8,
            MiniSeason::Defiance => 25u8,
        }
    }

    pub fn code(self) -> (r: u8)
        ensures
            r == self.spec_code(),
    {
        match self {
            MiniSeason::Unknown => 0,
            MiniSeason::RedWar => 1,
            MiniSeason::CurseOfOsiris => 2,
            MiniSeason::Warmind => 3,
            MiniSeason::Forsaken => 4,
            MiniSeason::Forge => 5,
            MiniSeason::Drifter => 6,
            MiniSeason::Opulence => 7,
            MiniSeason::Shadowkeep => 8,
            MiniSeason::Undying => 9,
            MiniSeason::Dawn => 10,
            MiniSeason::Worthy => 11,
            MiniSeason::Arrivals => 12,
            MiniSeason::BeyondLight => 13,
            MiniSeason::Hunt => 14,
            MiniSeason::Chosen => 15,
            MiniSeason::Splicer => 16,
            MiniSeason::Lost => 17,
            MiniSeason::Anniversary => 18,
            MiniSeason::WitchQueen => 19,
            MiniSeason::Risen => 20,
            MiniSeason::Haunted => 21,
            MiniSeason::Plunder => 22,
            MiniSeason::Seraph => 23,
            MiniSeason::LightFall => 24,
            MiniSeason::Defiance => 25,
        }
    }

    /// The season carried by a compact numeric code; unknown codes decode to
    /// `Unknown`.
    pub open spec fn spec_from_code(v: u8) -> MiniSeason {
        if v == 1 {
            MiniSeason::RedWar
        } else if v == 2 {
            MiniSeason::CurseOfOsiris
        } else if v == 3 {
            MiniSeason::Warmind
        } else if v == 4 {
            MiniSeason::Forsaken
        } else if v == 5 {
            MiniSeason::Forge
        } else if v == 6 {
            MiniSeason::Drifter
        } else if v == 7 {
            MiniSeason::Opulence
        } else if v == 8 {
            MiniSeason::Shadowkeep
        } else if v == 9 {
            MiniSeason::Undying
        } else if v == 10 {
            MiniSeason::Dawn
        } else if v == 11 {
            MiniSeason::Worthy
        } else if v == 12 {
            MiniSeason::Arrivals
        } else if v == 13 {
            MiniSeason::BeyondLight
        } else if v == 14 {
            MiniSeason::Hunt
        } else if v == 15 {
            MiniSeason::Chosen
        } else if v == 16 {
            MiniSeason::Splicer
        } else if v == 17 {
            MiniSeason::Lost
        } else if v == 18 {
            MiniSeason::Anniversary
        } else if v == 19 {
            MiniSeason::WitchQueen
        } else if v == 20 {
            MiniSeason::Risen
        } else if v == 21 {
            MiniSeason::Haunted
        } else if v == 22 {
            MiniSeason::Plunder
        } else if v == 23 {
            MiniSeason::Seraph
        } else if v == 24 {
            MiniSeason::LightFall
        } else if v == 25 {
            MiniSeason::Defiance
        } else {
            MiniSeason::Unknown
        }
    }

    pub fn from_code(v: u8) -> (r: MiniSeason)
        ensures
            r == MiniSeason::spec_from_code(v),
    {
        match v {
            1 => MiniSeason::RedWar,
            2 => MiniSeason::CurseOfOsiris,
            3 => MiniSeason::Warmind,
            4 => MiniSeason::Forsaken,
            5 => MiniSeason::Forge,
            6 => MiniSeason::Drifter,
            7 => MiniSeason::Opulence,
            8 => MiniSeason::Shadowkeep,
            9 => MiniSeason::Undying,
            10 => MiniSeason::Dawn,
            11 => MiniSeason::Worthy,
            12 => MiniSeason::Arrivals,
            13 => MiniSeason::BeyondLight,
            14 => MiniSeason::Hunt,
            15 => MiniSeason::Chosen,
            16 => MiniSeason::Splicer,
            17 => MiniSeason::Lost,
            18 => MiniSeason::Anniversary,
            19 => MiniSeason::WitchQueen,
            20 => MiniSeason::Risen,
            21 => MiniSeason::Haunted,
            22 => MiniSeason::Plunder,
            23 => MiniSeason::Seraph,
            24 => MiniSeason::LightFall,
            25 => MiniSeason::Defiance,
            _ => MiniSeason::Unknown,
        }
    }

    /// The watermark icon URL of the season; `Unknown` has none.
    pub open spec fn spec_icon_url(self) -> Option<Seq<char>> {
        match self {
            MiniSeason::Unknown => None,
            MiniSeason::RedWar => Some("https://www.bungie.net/common/destiny2_content/icons/0dac2f181f0245cfc64494eccb7db9f7.png"@),
            MiniSeason::CurseOfOsiris => Some("https://www.bungie.net/common/destiny2_content/icons/591f14483308beaad3278c3cd397e284.png"@),
            MiniSeason::Warmind => Some("https://www.bungie.net/common/destiny2_content/icons/e10338777d1d8633e073846e613a1c1f.png"@),
            MiniSeason::Forsaken => Some("https://www.bungie.net/common/destiny2_content/icons/0669efb55951e8bc9e99f3989eacc861.png"@),
            MiniSeason::Forge => Some("https://www.bungie.net/common/destiny2_content/icons/bbddbe06ab72b61e708afc4fdbe15d95.png"@),
            MiniSeason::Drifter => Some("https://www.bungie.net/common/destiny2_content/icons/f9110e633634d112cff72a67159e3b12.png"@),
            MiniSeason::Opulence => Some("https://www.bungie.net/common/destiny2_content/icons/785e5a64153cabd5637d68dcccb7fea6.png"@),
            MiniSeason::Shadowkeep => Some("https://www.bungie.net/common/destiny2_content/icons/8aae1c411642683d341b2c4f16a7130c.png"@),
            MiniSeason::Undying => Some("https://www.bungie.net/common/destiny2_content/icons/d4141b2247cf999c73d3dc409f9d00f7.png"@),
            MiniSeason::Dawn => Some("https://www.bungie.net/common/destiny2_content/icons/ac012e11fa8bb032b923ad85e2ffb29c.png"@),
            MiniSeason::Worthy => Some("https://www.bungie.net/common/destiny2_content/icons/3d335ddc3ec6668469aae60baad8548d.png"@),
            MiniSeason::Arrivals => Some("https://www.bungie.net/common/destiny2_content/icons/796813aa6cf8afe55aed4efc2f9c609b.png"@),
            MiniSeason::BeyondLight => Some("https://www.bungie.net/common/destiny2_content/icons/0aff1f4463f6f44e9863370ab1ce6983.png"@),
            MiniSeason::Hunt => Some("https://www.bungie.net/common/destiny2_content/icons/2347cc2407b51e1debbac020bfcd0224.png"@),
            MiniSeason::Chosen => Some("https://www.bungie.net/common/destiny2_content/icons/6a52f7cd9099990157c739a8260babea.png"@),
            MiniSeason::Splicer => Some("https://www.bungie.net/common/destiny2_content/icons/b07d89064a1fc9a8e061f59b7c747fa5.png"@),
            MiniSeason::Lost => Some("https://www.bungie.net/common/destiny2_content/icons/4368a3e344977c5551407845ede830c2.png"@),
            MiniSeason::Anniversary => Some("https://www.bungie.net/common/destiny2_content/icons/dd4dd93c5606998595d9e5a06d5bfc9c.png"@),
            MiniSeason::WitchQueen => Some("https://www.bungie.net/common/destiny2_content/icons/4fe83598190610f122497d22579a1fd9.png"@),
            MiniSeason::Risen => Some("https://www.bungie.net/common/destiny2_content/icons/b0406992c49c84bdc5febad94048dc01.png"@),
            MiniSeason::Haunted => Some("https://www.bungie.net/common/destiny2_content/icons/81edbfbf0bacf8e2117c00d1d6115f1b.png"@),
            MiniSeason::Plunder => Some("https://www.bungie.net/common/destiny2_content/icons/f359d68324ae21522c299983ff1ef9f2.png"@),
            MiniSeason::Seraph => Some("https://www.bungie.net/common/destiny2_content/icons/1a68ada4fb21371c5f2b7e2eae1ebce8.png"@),
            MiniSeason::LightFall => Some("https://www.bungie.net/common/destiny2_content/icons/849de2c6bd5e9b8ced8abe8cca56d724.png"@),
            MiniSeason::Defiance => Some("https://www.bungie.net/common/destiny2_content/icons/e6af18ae79b74e76dab327ec183f8228.png"@),
        }
    }

    pub fn icon_url(self) -> (r: Option<String>)
        ensures
            (match r {
                Some(s) => self.spec_icon_url() == Some(s@),
                None => self.spec_icon_url() is None,
            }),
    {
        match self {
            MiniSeason::Unknown => None,
            MiniSeason::RedWar => Some(String::from_str("https://www.bungie.net/common/destiny2_content/icons/0dac2f181f0245cfc64494eccb7db9f7.png")),
            MiniSeason::CurseOfOsiris => Some(String::from_str("https://www.bungie.net/common/destiny2_content/icons/591f14483308beaad3278c3cd397e284.png")),
            MiniSeason::Warmind => Some(String::from_str("https://www.bungie.net/common/destiny2_content/icons/e10338777d1d8633e073846e613a1c1f.png")),
            MiniSeason::Forsaken => Some(String::from_str("https://www.bungie.net/common/destiny2_content/icons/0669efb55951e8bc9e99f3989eacc861.png")),
            MiniSeason::Forge => Some(String::from_str("https://www.bungie.net/common/destiny2_content/icons/bbddbe06ab72b61e708afc4fdbe15d95.png")),
            MiniSeason::Drifter => Some(String::from_str("https://www.bungie.net/common/destiny2_content/icons/f9110e633634d112cff72a67159e3b12.png")),
            MiniSeason::Opulence => Some(String::from_str("https://www.bungie.net/common/destiny2_content/icons/785e5a64153cabd5637d68dcccb7fea6.png")),
            MiniSeason::Shadowkeep => Some(String::from_str("https://www.bungie.net/common/destiny2_content/icons/8aae1c411642683d341b2c4f16a7130c.png")),
            MiniSeason::Undying => Some(String::from_str("https://www.bungie.net/common/destiny2_content/icons/d4141b2247cf999c73d3dc409f9d00f7.png")),
            MiniSeason::Dawn => Some(String::from_str("https://www.bungie.net/common/destiny2_content/icons/ac012e11fa8bb032b923ad85e2ffb29c.png")),
            MiniSeason::Worthy => Some(String::from_str("https://www.bungie.net/common/destiny2_content/icons/3d335ddc3ec6668469aae60baad8548d.png")),
            MiniSeason::Arrivals => Some(String::from_str("https://www.bungie.net/common/destiny2_content/icons/796813aa6cf8afe55aed4efc2f9c609b.png")),
            MiniSeason::BeyondLight => Some(String::from_str("https://www.bungie.net/common/destiny2_content/icons/0aff1f4463f6f44e9863370ab1ce6983.png")),
            MiniSeason::Hunt => Some(String::from_str("https://www.bungie.net/common/destiny2_content/icons/2347cc2407b51e1debbac020bfcd0224.png")),
            MiniSeason::Chosen => Some(String::from_str("https://www.bungie.net/common/destiny2_content/icons/6a52f7cd9099990157c739a8260babea.png")),
            MiniSeason::Splicer => Some(String::from_str("https://www.bungie.net/common/destiny2_content/icons/b07d89064a1fc9a8e061f59b7c747fa5.png")),
            MiniSeason::Lost => Some(String::from_str("https://www.bungie.net/common/destiny2_content/icons/4368a3e344977c5551407845ede830c2.png")),
            MiniSeason::Anniversary => Some(String::from_str("https://www.bungie.net/common/destiny2_content/icons/dd4dd93c5606998595d9e5a06d5bfc9c.png")),
            MiniSeason::WitchQueen => Some(String::from_str("https://www.bungie.net/common/destiny2_content/icons/4fe83598190610f122497d22579a1fd9.png")),
            MiniSeason::Risen => Some(String::from_str("https://www.bungie.net/common/destiny2_content/icons/b0406992c49c84bdc5febad94048dc01.png")),
            MiniSeason::Haunted => Some(String::from_str("https://www.bungie.net/common/destiny2_content/icons/81edbfbf0bacf8e2117c00d1d6115f1b.png")),
            MiniSeason::Plunder => Some(String::from_str("https://www.bungie.net/common/destiny2_content/icons/f359d68324ae21522c299983ff1ef9f2.png")),
            MiniSeason::Seraph => Some(String::from_str("https://www.bungie.net/common/destiny2_content/icons/1a68ada4fb21371c5f2b7e2eae1ebce8.png")),
            MiniSeason::LightFall => Some(String::from_str("https://www.bungie.net/common/destiny2_content/icons/849de2c6bd5e9b8ced8abe8cca56d724.png")),
            MiniSeason::Defiance => Some(String::from_str("https://www.bungie.net/common/destiny2_content/icons/e6af18ae79b74e76dab327ec183f8228.png")),
        }
    }

    /// The season named by a watermark icon path; an absent or empty path
    /// names the first season, an unrecognised one names `Unknown`.
    pub open spec fn spec_of_icon_path(p: Option<Seq<char>>) -> MiniSeason {
        if p is None {
            MiniSeason::RedWar
        } else {
            let s = p->Some_0;
            if s == ""@ || s == "/common/destiny2_content/icons/0dac2f181f0245cfc64494eccb7db9f7.png"@ {
                MiniSeason::RedWar
            } else if s == "/common/destiny2_content/icons/591f14483308beaad3278c3cd397e284.png"@ {
                MiniSeason::CurseOfOsiris
            } else if s == "/common/destiny2_content/icons/e10338777d1d8633e073846e613a1c1f.png"@ {
                MiniSeason::Warmind
            } else if s == "/common/destiny2_content/icons/0669efb55951e8bc9e99f3989eacc861.png"@ {
                MiniSeason::Forsaken
            } else if s == "/common/destiny2_content/icons/bbddbe06ab72b61e708afc4fdbe15d95.png"@ {
                MiniSeason::Forge
            } else if s == "/common/destiny2_content/icons/f9110e633634d112cff72a67159e3b12.png"@ {
                MiniSeason::Drifter
            } else if s == "/common/destiny2_content/icons/785e5a64153cabd5637d68dcccb7fea6.png"@ {
                MiniSeason::Opulence
            } else if s == "/common/destiny2_content/icons/8aae1c411642683d341b2c4f16a7130c.png"@ {
                MiniSeason::Shadowkeep
            } else if s == "/common/destiny2_content/icons/d4141b2247cf999c73d3dc409f9d00f7.png"@ {
                MiniSeason::Undying
            } else if s == "/common/destiny2_content/icons/ac012e11fa8bb032b923ad85e2ffb29c.png"@ {
                MiniSeason::Dawn
            } else if s == "/common/destiny2_content/icons/3d335ddc3ec6668469aae60baad8548d.png"@ {
                MiniSeason::Worthy
            } else if s == "/common/destiny2_content/icons/796813aa6cf8afe55aed4efc2f9c609b.png"@ {
                MiniSeason::Arrivals
            } else if s == "/common/destiny2_content/icons/0aff1f4463f6f44e9863370ab1ce6983.png"@ {
                MiniSeason::BeyondLight
            } else if s == "/common/destiny2_content/icons/2347cc2407b51e1debbac020bfcd0224.png"@ {
                MiniSeason::Hunt
            } else if s == "/common/destiny2_content/icons/6a52f7cd9099990157c739a8260babea.png"@ {
                MiniSeason::Chosen
            } else if s == "/common/destiny2_content/icons/b07d89064a1fc9a8e061f59b7c747fa5.png"@ {
                MiniSeason::Splicer
            } else if s == "/common/destiny2_content/icons/4368a3e344977c5551407845ede830c2.png"@ {
                MiniSeason::Lost
            } else if s == "/common/destiny2_content/icons/dd4dd93c5606998595d9e5a06d5bfc9c.png"@ {
                MiniSeason::Anniversary
            } else if s == "/common/destiny2_content/icons/4fe83598190610f122497d22579a1fd9.png"@ {
                MiniSeason::WitchQueen
            } else if s == "/common/destiny2_content/icons/b0406992c49c84bdc5febad94048dc01.png"@ {
                MiniSeason::Risen
            } else if s == "/common/destiny2_content/icons/81edbfbf0bacf8e2117c00d1d6115f1b.png"@ {
                MiniSeason::Haunted
            } else if s == "/common/destiny2_content/icons/f359d68324ae21522c299983ff1ef9f2.png"@ {
                MiniSeason::Plunder
            } else if s == "/common/destiny2_content/icons/1a68ada4fb21371c5f2b7e2eae1ebce8.png"@ {
                MiniSeason::Seraph
            } else if s == "/common/destiny2_content/icons/849de2c6bd5e9b8ced8abe8cca56d724.png"@ {
                MiniSeason::LightFall
            } else if s == "/common/destiny2_content/icons/e6af18ae79b74e76dab327ec183f8228.png"@ {
                MiniSeason::Defiance
            } else {
                MiniSeason::Unknown
            }
        }
    }

    pub fn from_icon_path(p: Option<String>) -> (r: MiniSeason)
        ensures
            r == MiniSeason::spec_of_icon_path(opt_str_view(p)),
    {
        match p {
            None => MiniSeason::RedWar,
            Some(x) => {
                let s = x.as_str();
                if str_eq(s, "") || str_eq(s, "/common/destiny2_content/icons/0dac2f181f0245cfc64494eccb7db9f7.png") {
                    MiniSeason::RedWar
                } else if str_eq(s, "/common/destiny2_content/icons/591f14483308beaad3278c3cd397e284.png") {
                    MiniSeason::CurseOfOsiris
                } else if str_eq(s, "/common/destiny2_content/icons/e10338777d1d8633e073846e613a1c1f.png") {
                    MiniSeason::Warmind
                } else if str_eq(s, "/common/destiny2_content/icons/0669efb55951e8bc9e99f3989eacc861.png") {
                    MiniSeason::Forsaken
                } else if str_eq(s, "/common/destiny2_content/icons/bbddbe06ab72b61e708afc4fdbe15d95.png") {
                    MiniSeason::Forge
                } else if str_eq(s, "/common/destiny2_content/icons/f9110e633634d112cff72a67159e3b12.png") {
                    MiniSeason::Drifter
                } else if str_eq(s, "/common/destiny2_content/icons/785e5a64153cabd5637d68dcccb7fea6.png") {
                    MiniSeason::Opulence
                } else if str_eq(s, "/common/destiny2_content/icons/8aae1c411642683d341b2c4f16a7130c.png") {
                    MiniSeason::Shadowkeep
                } else if str_eq(s, "/common/destiny2_content/icons/d4141b2247cf999c73d3dc409f9d00f7.png") {
                    MiniSeason::Undying
                } else if str_eq(s, "/common/destiny2_content/icons/ac012e11fa8bb032b923ad85e2ffb29c.png") {
                    MiniSeason::Dawn
                } else if str_eq(s, "/common/destiny2_content/icons/3d335ddc3ec6668469aae60baad8548d.png") {
                    MiniSeason::Worthy
                } else if str_eq(s, "/common/destiny2_content/icons/796813aa6cf8afe55aed4efc2f9c609b.png") {
                    MiniSeason::Arrivals
                } else if str_eq(s, "/common/destiny2_content/icons/0aff1f4463f6f44e9863370ab1ce6983.png") {
                    MiniSeason::BeyondLight
                } else if str_eq(s, "/common/destiny2_content/icons/2347cc2407b51e1debbac020bfcd0224.png") {
                    MiniSeason::Hunt
                } else if str_eq(s, "/common/destiny2_content/icons/6a52f7cd9099990157c739a8260babea.png") {
                    MiniSeason::Chosen
                } else if str_eq(s, "/common/destiny2_content/icons/b07d89064a1fc9a8e061f59b7c747fa5.png") {
                    MiniSeason::Splicer
                } else if str_eq(s, "/common/destiny2_content/icons/4368a3e344977c5551407845ede830c2.png") {
                    MiniSeason::Lost
                } else if str_eq(s, "/common/destiny2_content/icons/dd4dd93c5606998595d9e5a06d5bfc9c.png") {
                    MiniSeason::Anniversary
                } else if str_eq(s, "/common/destiny2_content/icons/4fe83598190610f122497d22579a1fd9.png") {
                    MiniSeason::WitchQueen
                } else if str_eq(s, "/common/destiny2_content/icons/b0406992c49c84bdc5febad94048dc01.png") {
                    MiniSeason::Risen
                } else if str_eq(s, "/common/destiny2_content/icons/81edbfbf0bacf8e2117c00d1d6115f1b.png") {
                    MiniSeason::Haunted
                } else if str_eq(s, "/common/destiny2_content/icons/f359d68324ae21522c299983ff1ef9f2.png") {
                    MiniSeason::Plunder
                } else if str_eq(s, "/common/destiny2_content/icons/1a68ada4fb21371c5f2b7e2eae1ebce8.png") {
                    MiniSeason::Seraph
                } else if str_eq(s, "/common/destiny2_content/icons/849de2c6bd5e9b8ced8abe8cca56d724.png") {
                    MiniSeason::LightFall
                } else if str_eq(s, "/common/destiny2_content/icons/e6af18ae79b74e76dab327ec183f8228.png") {
                    MiniSeason::Defiance
                } else {
                    MiniSeason::Unknown
                }
            },
        }
    }

    /// The season ordinal of the watermark; `Unknown` has none. Seasons that
    /// shipped together with an expansion share its ordinal.
    pub open spec fn spec_season_number(self) -> Option<u8> {
        match self {
            MiniSeason::Unknown => None,
            MiniSeason::RedWar => Some(1u8),
            MiniSeason::CurseOfOsiris => Some(2u8),
            MiniSeason::Warmind => Some(3u8),
            MiniSeason::Forsaken => Some(4u8),
            MiniSeason::Forge => Some(5u8),
            MiniSeason::Drifter => Some(6u8),
            MiniSeason::Opulence => Some(7u8),
            MiniSeason::Shadowkeep => Some(8u8),
            MiniSeason::Undying => Some(8u8),
            MiniSeason::Dawn => Some(9u8),
            MiniSeason::Worthy => Some(10u8),
            MiniSeason::Arrivals => Some(11u8),
            MiniSeason::BeyondLight => Some(12u8),
            MiniSeason::Hunt => Some(12u8),
            MiniSeason::Chosen => Some(13u8),
            MiniSeason::Splicer => Some(14u8),
            MiniSeason::Lost => Some(15u8),
            MiniSeason::Anniversary => Some(15u8),
            MiniSeason::WitchQueen => Some(16u8),
            MiniSeason::Risen => Some(16u8),
            MiniSeason::Haunted => Some(17u8),
            MiniSeason::Plunder => Some(18u8),
            MiniSeason::Seraph => Some(19u8),
            MiniSeason::LightFall => Some(20u8),
            MiniSeason::Defiance => Some(20u8),
        }
    }

    pub fn season_number(self) -> (r: Option<u8>)
        ensures
            r == self.spec_season_number(),
    {
        match self {
            MiniSeason::Unknown => None,
            MiniSeason::RedWar => Some(1),
            MiniSeason::CurseOfOsiris => Some(2),
            MiniSeason::Warmind => Some(3),
            MiniSeason::Forsaken => Some(4),
            MiniSeason::Forge => Some(5),
            MiniSeason::Drifter => Some(6),
            MiniSeason::Opulence => Some(7),
            MiniSeason::Shadowkeep => Some(8),
            MiniSeason::Undying => Some(8),
            MiniSeason::Dawn => Some(9),
            MiniSeason::Worthy => Some(10),
            MiniSeason::Arrivals => Some(11),
            MiniSeason::BeyondLight => Some(12),
            MiniSeason::Hunt => Some(12),
            MiniSeason::Chosen => Some(13),
            MiniSeason::Splicer => Some(14),
            MiniSeason::Lost => Some(15),
            MiniSeason::Anniversary => Some(15),
            MiniSeason::WitchQueen => Some(16),
            MiniSeason::Risen => Some(16),
            MiniSeason::Haunted => Some(17),
            MiniSeason::Plunder => Some(18),
            MiniSeason::Seraph => Some(19),
            MiniSeason::LightFall => Some(20),
            MiniSeason::Defiance => Some(20),
        }
    }
}


} // verus!
