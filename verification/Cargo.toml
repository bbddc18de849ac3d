[package]
name = "compressed_nft"
version = "0.1.0"
edition = "2021"
publish = false

[dependencies]
anchor-lang = "=0.29.0"
anchor-spl = { version = "=0.29.0", default-features = false, features = ["associated_token", "metadata", "token"] }
mpl-bubblegum = "=1.4.0"
solana-program = "=1.18.26"
