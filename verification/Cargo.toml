[package]
name = "pumpfun_substream"
version = "0.1.0"
edition = "2021"
publish = false

[dependencies]
anyhow = "=1.0.104"
substreams-solana = "=0.16.0"
base64 = "=0.23.1"
bs58 = "=0.4.0"
