[package]
name = "chat_server"
version = "0.1.0"
edition = "2021"
publish = false

[dependencies]
aes-gcm = "=0.10.3"
argon2 = { version = "=0.5.3", features = ["std"] }
axum = "=0.8.9"
chrono = { version = "=0.4.45", features = ["serde"] }
dotenv = "=0.15.0"
hex = "=0.4.3"
hmac = "=0.12.1"
serde = { version = "=1.0.229", features = ["derive"] }
serde_json = "=1.0.154"
sha2 = "=0.10.9"
socketioxide = { version = "0.18", features = ["state", "extensions"] }
sqlx = { version = "=0.8.6", default-features = false, features = ["sqlite", "runtime-tokio", "chrono", "uuid", "macros", "migrate"] }
thiserror = "=2.0.21"
tokio = { version = "=1.54.1", features = ["full"] }
tower = "=0.5.3"
tower-http = { version = "=0.6.11", features = ["cors"] }
tracing = "=0.1.44"
tracing-subscriber = { version = "=0.3.23", features = ["env-filter"] }
uuid = { version = "=1.29.0", features = ["v4", "serde"] }
