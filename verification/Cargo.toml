[package]
name = "nft_staking"
version = "0.1.0"
edition = "2021"
publish = false

[dependencies]
anchor-lang = "=0.32.2"
mpl-core = "=0.11.2"
solana-program = "=2.3.0"
