[package]
name = "subscription"
version = "0.1.0"
edition = "2021"
publish = false

[dependencies]
cookie = "=0.18.2"
http = "=1.5.0"
validator = "=0.21.0"
serde = { version = "=1.0.229", features = ["derive"] }
serde_json = "=1.0.154"
smallvec = "=1.16.5"
ft-sdk = { version = "=0.6.3", features = ["field-extractors"] }
diesel = "=2.2.12"
