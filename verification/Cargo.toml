[package]
name = "tx_pipeline"
version = "0.1.0"
edition = "2021"
publish = false

[dependencies]
subxt = "=0.51.1"
subxt-signer = { version = "*", default-features = false, features = ["std", "sr25519", "subxt"] }
tokio = { version = "=1.53.2", features = ["rt-multi-thread", "macros"] }
