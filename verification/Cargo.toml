[package]
name = "preflight"
version = "0.1.0"
edition = "2021"
publish = false

[dependencies]
litesvm = { version = "=0.9.1", default-features = false }
solana-pubkey = "=3.0.0"
solana-keypair = "=3.1.0"
solana-signer = "=3.0.0"
solana-instruction = "=3.1.0"
solana-instruction-error = "=2.5.0"
solana-message = "=3.0.1"
solana-transaction = "=3.0.2"
solana-transaction-error = "=3.0.0"
solana-system-interface = { version = "=3.0.0", features = ["bincode"] }
solana-native-token = "=3.0.0"
serde = { version = "=1.0.229", features = ["derive"] }
serde_json = "=1.0.154"
anyhow = "=1.0.104"
thiserror = "=2.0.21"
clap = { version = "=4.6.7", features = ["derive"] }
console = "=0.16.6"
indicatif = "=0.18.6"
