[package]
name = "redact-data"
version = "0.1.0"
edition = "2021"
publish = false

[dependencies]
async-trait = "0.1"
mobc = "*"
mobc-redis = "*"
mongodb = "*"
reqwest = { version = "*", default-features = false, features = ["json"] }
serde = { version = "1", features = ["derive"] }
serde_json = "1"
