[package]
name = "d2_weapon_filter"
version = "0.1.0"
edition = "2021"
publish = false

[dependencies]
serde = { version = "=1.0.229", features = ["derive"] }
serde_cbor = "=0.11.2"
serde_repr = "=0.1.21"
