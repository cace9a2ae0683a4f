[package]
name = "purecrypto_tpm"
version = "0.1.0"
edition = "2021"
publish = false

[dependencies]
purecrypto = { version = "=0.10.4", default-features = false, features = ["std", "hash", "cipher", "rng", "linux-getrandom"] }
