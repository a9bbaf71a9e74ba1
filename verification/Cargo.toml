[package]
name = "price_agent"
version = "0.1.0"
edition = "2021"
publish = false

[dependencies]
hex = "*"
candid = "*"
serde = "*"
serde_json = "*"
anyhow = "*"
ic-cdk = "*"
ic-cdk-timers = "*"
ic-cdk-macros = "*"
