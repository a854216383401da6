[package]
name = "cnft"
version = "0.1.0"
edition = "2021"
publish = false

[dependencies]
solana-program = "=3.0.0"
mpl-bubblegum = "=4.0.0"
