[package]
name = "authcore"
version = "0.1.0"
edition = "2021"
publish = false

[dependencies]
anyhow = "*"
async-trait = "*"
aws-sdk-dynamodb = "*"
axum = "*"
serde = { version = "*", features = ["derive"] }
tracing = "*"
