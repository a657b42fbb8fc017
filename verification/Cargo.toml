[package]
name = "deepwell"
version = "0.1.0"
edition = "2021"
publish = false

[dependencies]
chrono = "=0.4.45"
cron = "=0.17.0"
fluent-syntax = "=0.12.0"
serde = { version = "=1.0.229", features = ["derive"] }
serde_json = "=1.0.154"
sha2 = "=0.10.9"
unic-langid = "=0.9.6"
wikidot-normalize = "=0.12.0"
