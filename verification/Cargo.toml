[package]
name = "cache_gateway"
version = "0.1.0"
edition = "2021"
publish = false

[dependencies]
form_urlencoded = "=1.2.2"
percent-encoding = "=2.3.2"
axum = "=0.6.20"
tokio = { version = "=1.54.1", features = ["full"] }
tracing = "=0.1.44"
tracing-subscriber = "=0.3.23"
volo = "=0.12.4"
