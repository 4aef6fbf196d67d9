[package]
name = "pump-rust-client"
version = "0.1.0"
edition = "2021"
publish = false

[dependencies]
anchor-spl = { version = "0.31.1", features = ["metadata"] }
bincode = "1.3"
dotenvy = "0.15"
fastrand = "2"
solana-program = "2"
solana-sdk = "2"
tokio = { version = "1", features = ["macros", "rt-multi-thread", "time"] }
zstd = "0.13"
