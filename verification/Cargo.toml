[package]
name = "kms_core"
version = "0.1.0"
edition = "2021"
publish = false

[dependencies]
blake2 = "0.10"
crypto_box = "0.9"
ed25519-dalek = "2"
getrandom = "0.2"
sha2 = "0.10"
x25519-dalek = "2"
zeroize = "1"
