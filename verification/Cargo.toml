[package]
name = "backend"
version = "0.1.0"
edition = "2021"
publish = false

[dependencies]
uuid = { version = "=1.29.0", features = ["v5"] }
argon2 = "0.5"
async-trait = "=0.1.92"
axum = "=0.7.9"
axum-extra = { version = "0.9", features = ["cookie"] }
chrono = { version = "0.4", features = ["serde"] }
dotenv = "=0.15.0"
futures-util = "=0.3.34"
jsonwebtoken = "9"
ollama-rs = { version = "=0.2.6", features = ["stream"] }
once_cell = "=1.21.4"
qdrant-client = "=1.20.0"
serde = { version = "=1.0.229", features = ["derive"] }
serde_json = "=1.0.154"
sqlx = { version = "0.8", default-features = false, features = ["runtime-tokio", "postgres", "chrono", "derive"] }
thiserror = "=1.0.69"
time = "0.3"
tokio = { version = "=1.54.1", features = ["rt-multi-thread", "macros", "net"] }
tower-http = { version = "=0.6.11", features = ["cors", "trace"] }
tracing = "=0.1.44"
tracing-subscriber = { version = "=0.3.23", features = ["env-filter"] }

[dev-dependencies]
fancy-regex = "=0.20.0"
