[package]
name = "secret_sealing"
version = "0.1.0"
edition = "2021"
publish = false

[dependencies]
argon2 = "0.4"
blake3 = "1"
chacha20poly1305 = "0.9"
oqs = "0.7"
rand_core = { version = "0.6", features = ["getrandom"] }
