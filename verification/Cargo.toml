[package]
name = "multilink"
version = "0.1.0"
edition = "2021"
publish = false

[dependencies]
serde_json = "1"
serde = { version = "1", features = ["derive"] }
thiserror = "1"
tokio = { version = "1", features = ["full"] }
tokio-stream = "0.1"
hyper = { version = "0.14", features = ["full"] }
hyper-rustls = "0.24"
tower = { version = "0.4", features = ["timeout", "util"] }
futures = "0.3"
async-stream = "0.3"
async-trait = "0.1"
tracing = "0.1"
