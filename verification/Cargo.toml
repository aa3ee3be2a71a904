[package]
name = "ic_eth"
version = "0.1.0"
edition = "2021"
publish = false

[dependencies]
candid = "0.9"
ethers-core = "2.0"
hex = "0.4"
ic-cdk = "0.10"
ic-cdk-macros = "0.7"
serde = { version = "1", features = ["derive"] }
serde_json = "1"
url = "2"
