[package]
name = "split_spend"
version = "0.1.0"
edition = "2021"
publish = false

[dependencies]
bitcoin = "0.31"
musig2 = "0.0"
secp = "0.2"
secp256k1 = { version = "0.28", features = ["global-context"] }
