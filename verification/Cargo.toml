[package]
name = "smart_account"
version = "0.1.0"
edition = "2021"
publish = false

[dependencies]
base64ct = "1"

[dev-dependencies]
ed25519-dalek = "2"
p256 = "0.13"
sha2 = "0.10"
