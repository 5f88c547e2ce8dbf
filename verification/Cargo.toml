[package]
name = "openassets"
version = "0.1.0"
edition = "2021"
publish = false

[dependencies]
tapyrus = "=0.4.8"

[dev-dependencies]
bech32 = "=0.12.0"
bs58 = { version = "0.5", features = ["check"] }
