[package]
name = "balance_api"
version = "0.1.0"
edition = "2021"
publish = false

[dependencies]
serde_json = "=1.0.151"
url = "=2.5.8"
tokio = { version = "=1.53.2", default-features = false, features = ["macros", "rt-multi-thread"] }
solana-rpc-client = { version = "=3.1.14", default-features = false }
solana-pubkey = "=3.0.0"
