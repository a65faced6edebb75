[package]
name = "gateway"
version = "0.1.0"
edition = "2021"
publish = false

[dependencies]
serde_json = "=1.0.151"
metrics-exporter-prometheus = { version = "=0.12.2", default-features = false }
axum = "=0.6.20"
hyper = { version = "=0.14.32", features = ["client", "http1", "tcp"] }
clap = { version = "=4.6.7", features = ["cargo"] }
log = "=0.4.34"
tokio = { version = "=1.53.2", features = ["rt-multi-thread", "macros", "time", "net"] }
