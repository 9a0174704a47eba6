[package]
name = "yral_wallet"
version = "0.1.0"
edition = "2021"
publish = false

[dependencies]
candid = "=0.10.37"
futures = "=0.3.34"
ic-agent = "=0.39.3"
serde = "=1.0.229"
