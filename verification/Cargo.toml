[package]
name = "cbmt"
version = "0.1.0"
edition = "2021"
publish = false

[dependencies]
agave-feature-set = "=3.1.14"
clap = { version = "=4.6.7", features = ["derive"] }
indicatif = "=0.17.11"
solana-logger = "=2.3.1"
solana-pubkey = "=3.0.0"
solana-sdk = "=2.3.1"
solana-sdk-ids = "=2.2.1"
termcolor = "=1.4.1"
tokio = { version = "=1.54.1", features = ["macros", "rt-multi-thread"] }
