[package]
name = "deadpool-redis"
version = "0.1.0"
edition = "2021"
publish = false

[dependencies]
async-trait = "0.1"
config = "0.10"
deadpool = "0.5"
redis = "0.15"
serde = { version = "1", features = ["derive"] }
