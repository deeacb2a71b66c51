[package]
name = "sanitized_transaction"
version = "0.1.0"
edition = "2021"
publish = false

[dependencies]
solana-hash = { version = "=4.7.0", features = ["atomic"] }
solana-message = { version = "=3.0.1", features = ["bincode", "blake3"] }
solana-pubkey = "=3.0.0"
solana-sanitize = "=3.0.1"
solana-signature = { version = "=3.6.0", features = ["verify"] }
solana-transaction-error = "=3.4.0"

[dev-dependencies]
solana-keypair = "=3.1.2"
solana-sdk-ids = "=3.1.0"
solana-signer = "=3.0.1"
solana-system-interface = { version = "=2.0.0", features = ["bincode"] }
solana-vote-interface = { version = "=3.0.0", features = ["bincode"] }
