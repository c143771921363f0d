[package]
name = "portfolio_core"
version = "0.1.0"
edition = "2021"
publish = false

[dependencies]
anyhow = "*"
axum = "=0.8.9"
bcrypt = "=0.19.3"
bson = "=2.15.0"
chrono = "*"
futures = "*"
jsonwebtoken = { version = "=11.1.0", features = ["rust_crypto"] }
mongodb = "=3.9.1"
reqwest = { version = "*", default-features = false, features = ["json", "rustls-tls"] }
serde = { version = "*", features = ["derive"] }
serde_json = "=1.0.151"
thiserror = "*"
tokio = { version = "*", features = ["rt-multi-thread", "macros", "net"] }
tower-http = { version = "*", features = ["cors", "trace"] }
tracing = "*"
validator = { version = "*", features = ["derive"] }
