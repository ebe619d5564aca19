[package]
name = "lootbox"
version = "0.1.0"
edition = "2021"
publish = false

[dependencies]
tiny-keccak = { version = "2.0", features = ["sha3"] }
casper-contract = { version = "4.0", default-features = false }
casper-types = "4.0"
casper_types_derive = "*"
