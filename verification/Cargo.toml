[package]
name = "affiliate_withdraw"
version = "0.1.0"
edition = "2021"
publish = false

[dependencies]
solana-program = "=1.16.25"
solana-sdk = "=1.16.25"
port-variable-rate-lending-instructions = "=0.3.0"
mercurial-vault = "=0.5.0"
anchor-lang = "=0.28.0"
serde_json = "=1.0.151"
base64 = "=0.23.1"
bincode = "=1.3.3"

[dev-dependencies]
spl-token = "=3.5.0"
