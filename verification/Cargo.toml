[package]
name = "scrapedown"
version = "0.1.0"
edition = "2021"
publish = false

[dependencies]
html2md = "=0.2.17"
serde_json = "=1.0.151"
serde = { version = "=1.0.229", features = ["derive"] }
anyhow = "=1.0.104"
axum = "=0.8.9"
tokio = { version = "=1.53.2", features = ["full"] }
headless_chrome = "=0.9.0"
tracing-subscriber = "=0.3.23"
