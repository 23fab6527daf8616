[package]
name = "mailflow_api"
version = "0.1.0"
edition = "2021"
publish = false

[dependencies]
serde_json = { version = "*", features = ["preserve_order"] }
uuid = { version = "*", features = ["v4"] }
chrono = "*"
axum = "*"
aws-sdk-sqs = "*"
serde = { version = "*", features = ["derive"] }
thiserror = "*"
