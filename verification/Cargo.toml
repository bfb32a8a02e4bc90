[package]
name = "escrow"
version = "0.1.0"
edition = "2021"
publish = false

[dependencies]
solana-program = "1.17"
spl-token = { version = "=4.0.0", features = ["no-entrypoint"] }
thiserror = "1"
anchor-lang = "=0.29.0"
anchor-spl = { version = "=0.29.0", default-features = false, features = ["token"] }
