[package]
name = "yahoo_finance_api"
version = "0.1.0"
edition = "2021"
publish = false

[dependencies]
chrono = "0.4"
log = "0.4"
reqwest = { version = "0.12", features = ["blocking", "cookies"] }
serde_json = "1"
