[package]
name = "symmetry_swap"
version = "0.1.0"
edition = "2021"
publish = false

[dependencies]
anchor-lang = ">=0.26, <0.31"
anyhow = "1"
jupiter-amm-interface = "0.1.1"
rust_decimal = "1"
solana-sdk = "1"
