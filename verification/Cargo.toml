[package]
name = "sig_introspect"
version = "0.1.0"
edition = "2021"
publish = false

[dependencies]
solana-program = "1.18"

[dev-dependencies]
libsecp256k1 = "0.7"
