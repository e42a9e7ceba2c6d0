[package]
name = "api_key_auth"
version = "0.1.0"
edition = "2021"
publish = false

[dependencies]
hmac = "0.12"
sha2 = "0.10"
axum = "*"
axum-casbin = "*"
tokio = { version = "1", features = ["full"] }
tower-http = { version = "*", features = ["trace"] }
http = "1"
chrono = "0.4"
serde = { version = "1", features = ["derive"] }
tracing = "0.1"
redis = { version = "*", features = ["tokio-comp"] }
aws-config = { version = "1", features = ["behavior-version-latest"] }
aws-sdk-s3 = "1"
