[package]
name = "vif"
version = "0.1.0"
edition = "2021"
publish = false

[dependencies]
async-trait = "=0.1.92"
axum = "=0.8.9"
base64 = "=0.23.1"
brest = { version = "=0.2.2", features = ["axum"] }
eyre = "=0.6.14"
figment = { version = "=0.10.19", features = ["json", "yaml", "toml", "env"] }
futures = "=0.3.34"
infer = "=0.22.0"
qdrant-client = { version = "=1.20.0", default-features = false, features = ["serde"] }
reqwest = { version = "=0.12.28", default-features = false, features = ["json", "rustls-tls"] }
serde = { version = "=1.0.229", features = ["derive"] }
serde_json = "=1.0.154"
serde_with = "=3.24.0"
thiserror = "=2.0.21"
tokio = { version = "=1.54.1", features = ["full"] }
tower-http = { version = "=0.7.1", features = ["cors"] }
tracing = "=0.1.44"
tracing-subscriber = { version = "=0.3.23", features = ["env-filter"] }
url = "=2.5.8"
uuid = { version = "=1.29.0", features = ["v5", "serde"] }
