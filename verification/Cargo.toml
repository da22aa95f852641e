[package]
name = "acp_ledger"
version = "0.1.0"
edition = "2021"
publish = false

[dependencies]
serde_json = "1"
serde = { version = "1", features = ["derive"] }
hdk = "0.3"
hdi = "0.4"
