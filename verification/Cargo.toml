[package]
name = "threshold_signing_lib"
version = "0.1.0"
edition = "2021"
publish = false

[dependencies]
frost-ed25519 = "2"
rand = "0.8"
sha2 = "0.10"
ed25519-dalek = "2"
bincode = "1"
hex = "0.4"
sp1-zkvm = "*"
