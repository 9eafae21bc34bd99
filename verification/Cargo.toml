[package]
name = "agent_keys"
version = "0.1.0"
edition = "2021"
publish = false

[dependencies]
rust-argon2 = "*"
ed25519-dalek = "=1.0.1"
hcid = "=0.0.6"
sha2 = "=0.9.9"
