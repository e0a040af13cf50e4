[package]
name = "chat_backend"
version = "0.1.0"
edition = "2021"
publish = false

[dependencies]
aws-config = "1"
aws-sdk-apigatewaymanagement = "1"
aws-sdk-dynamodb = "1"
axum = { version = "0.6", features = ["ws"] }
chrono = { version = "0.4", features = ["serde"] }
lambda_http = "*"
lambda_runtime = "*"
reqwest = { version = "0.12", default-features = false, features = ["json", "rustls-tls"] }
serde = { version = "1", features = ["derive"] }
serde_json = "1"
tokio = { version = "1", features = ["full"] }
tower-http = { version = "0.4", features = ["cors"] }
tracing = "0.1"
tracing-subscriber = { version = "0.3", features = ["json", "env-filter"] }
ts-rs = { version = "*", features = ["chrono-impl"] }
uuid = { version = "1", features = ["v4"] }
