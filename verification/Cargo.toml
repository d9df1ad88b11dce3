[package]
name = "wee"
version = "0.1.0"
edition = "2021"
publish = false

[dependencies]
anyhow = "1"
axum = "0.8"
base62 = "2"
chrono = { version = "0.4", default-features = false, features = ["clock", "serde", "std"] }
config = { version = "*", default-features = false, features = ["toml"] }
futures-util = "0.3"
mongodb = { version = "3", default-features = false, features = ["compat-3-0-0", "rustls-tls"] }
redis = { version = "*", features = ["tokio-comp"] }
serde = { version = "1", features = ["derive"] }
serde_json = "1"
thiserror = "*"
tokio = { version = "1", features = ["macros", "net", "rt-multi-thread", "sync"] }
tokio-zookeeper = "*"
tower = "*"
tower-http = { version = "*", features = ["trace"] }
tracing = "0.1"
tracing-subscriber = { version = "0.3", features = ["env-filter"] }
validator = { version = "*", features = ["derive"] }
