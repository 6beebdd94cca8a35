[package]
name = "jimo"
version = "0.1.0"
edition = "2021"
publish = false

[dependencies]
ulid = "1"
url = "2"
figment = { version = "0.10", features = ["toml"] }
serde = { version = "1", features = ["derive"] }
serde_json = "1"
anyhow = "1"
thiserror = "2"
async-trait = "0.1"
futures = "0.3"
tokio = { version = "1", features = ["full"] }
axum = "0.8"
hyper = { version = "1", features = ["full"] }
hyper-util = { version = "0.1", features = ["full"] }
http-body-util = "0.1"
tower = "0.5"
tower-http = { version = "0.6", features = ["trace", "timeout"] }
tracing = "0.1"
tracing-subscriber = "0.3"
cfonts = "1"
typedmap = { version = "0.6", features = ["dashmap", "clone"] }
dashmap = "6"
walkdir = "2"
