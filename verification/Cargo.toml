[package]
name = "confidential_workflow"
version = "0.1.0"
edition = "2021"
publish = false

[dependencies]
serde_json = "1"
bs58 = "0.5"
dotenvy = "0.15"
reqwest = { version = "0.12", default-features = false, features = ["blocking", "json", "rustls-tls"] }
