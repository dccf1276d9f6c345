[package]
name = "vanity_search"
version = "0.1.0"
edition = "2021"
publish = false

[dependencies]
bip39 = "*"
bs58 = "*"
clap = { version = "4", features = ["derive"] }
num_cpus = "*"
rand = "0.8"
rayon = "*"
solana-sdk = "*"
