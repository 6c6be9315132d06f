[package]
name = "ledger_guards"
version = "0.1.0"
edition = "2021"
publish = false

[dependencies]
anchor-lang = "*"
anchor-spl = "*"
pinocchio = "*"
pinocchio-log = "*"
pyth-solana-receiver-sdk = "*"
solana-program = "*"
