[package]
name = "outline-ss-rust"
version = "0.1.0"
edition = "2021"
publish = false

[dependencies]
anyhow = "1"
axum = { version = "0.8", features = ["ws"] }
bytes = "1"
futures-util = "0.3"
h3 = "*"
hyper = { version = "1", features = ["server", "http1", "http2"] }
parking_lot = "0.12"
quinn = "0.11"
rand = "0.9"
tokio = { version = "1", features = ["full"] }
tracing = "0.1"
tungstenite = "*"
