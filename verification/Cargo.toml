[package]
name = "blockhash_query"
version = "0.1.0"
edition = "2021"
publish = false

[dependencies]
bincode = "1.3.3"
clap = "=2.34.0"
solana-clap-utils = "=1.18.26"
solana-sdk = "=1.18.26"
