[package]
name = "adguardhome_mcp_rs"
version = "0.1.15"
edition = "2021"
publish = false

[dependencies]
url = "2"
semver = "1"
serde = { version = "1", features = ["derive"] }
serde_json = "1"
reqwest = { version = "0.12", default-features = false, features = ["json", "rustls-tls"] }
tokio = { version = "1", features = ["full"] }
axum = "0.8"
clap = "4"
config = { version = "0.15", default-features = false, features = ["toml", "json", "yaml"] }
dashmap = "6"
futures = "0.3"
tokio-stream = "0.1"
tower-http = { version = "0.6", features = ["cors", "trace"] }
tracing = "0.1"
tracing-subscriber = "0.3"
uuid = { version = "1", features = ["v4"] }
chrono = "0.4"
anyhow = "1"
thiserror = "2"
