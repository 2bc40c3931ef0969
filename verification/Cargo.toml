[package]
name = "solana_nft_marketplace"
version = "0.1.0"
edition = "2021"
publish = false

[dependencies]
solana-program = "*"
mpl-token-metadata = "*"
