[package]
name = "geekcraft"
version = "0.1.0"
edition = "2021"
publish = false

[dependencies]
anyhow = "=1.0.104"
axum = { version = "=0.8.9", features = ["ws"] }
bcrypt = "=0.19.3"
chrono = "=0.4.45"
env_logger = "=0.11.11"
futures-util = "=0.3.34"
lazy_static = "=1.5.1"
log = "=0.4.34"
mongodb = { version = "*", features = ["sync"] }
redis = "=1.7.1"
rusqlite = { version = "=0.40.2", features = ["bundled"] }
serde = { version = "=1.0.229", features = ["derive"] }
serde_json = "=1.0.151"
tokio = { version = "=1.53.2", features = ["full"] }
tower-http = { version = "=0.7.1", features = ["cors", "trace"] }
uuid = { version = "=1.27.0", features = ["v4"] }
