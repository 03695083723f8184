[package]
name = "bit_buy_icp_backend"
version = "0.1.0"
edition = "2021"
publish = false

[dependencies]
candid = "=0.10.39"
hex = "=0.4.3"
ic-cdk = "=0.20.3"
ic-cdk-macros = "=0.20.3"
serde = "=1.0.229"
sha2 = "=0.10.9"
