[package]
name = "billing_sync"
version = "0.1.0"
edition = "2021"
publish = false

[dependencies]
anyhow = "1"
base64 = "0.21"
hmac = "0.12"
sha2 = "0.10"
serde_json = "1"
