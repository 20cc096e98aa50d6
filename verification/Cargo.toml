[package]
name = "transferhook"
version = "0.1.0"
edition = "2021"
publish = false

[dependencies]
solana-program = "*"
spl-token-2022 = { version = "*", features = ["no-entrypoint"] }

[dev-dependencies]
spl-tlv-account-resolution = "*"
spl-transfer-hook-interface = "*"
spl-pod = "*"
