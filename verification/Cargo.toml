[package]
name = "api_keys"
version = "0.1.0"
edition = "2021"
publish = false

[dependencies]
http = "*"
axum = "*"
tower = "*"
futures-util = "*"
serde = { version = "*", features = ["derive"] }
tracing = "*"
redis = { version = "*", features = ["tokio-comp"] }
mongodb = "*"
bson = "*"
chrono = { version = "*", features = ["serde"] }
async-trait = "*"
