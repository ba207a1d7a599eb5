[package]
name = "klend_client"
version = "0.1.0"
edition = "2021"
publish = false

[dependencies]
anchor-lang = "=1.2.0"
anyhow = "*"
clap = { version = "*", features = ["derive"] }
klend = "=0.1.0"
solana-pubkey = { version = "=4.4.0", features = ["curve25519"] }
solana-sha256-hasher = "=3.1.0"
spl-associated-token-account = "*"

[dev-dependencies]
bs58 = "0.5"
sha2 = "0.10"
solana-sdk-ids = "3"
solana-system-interface = "3"
spl-token = "*"
