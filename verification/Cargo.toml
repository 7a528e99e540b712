[package]
name = "sse_bridge"
version = "0.1.0"
edition = "2021"
publish = false

[dependencies]
axum = "=0.8.9"
futures = "=0.3.34"
mcp-core-rs = "=0.1.0"
mcp-error-rs = "=0.1.0"
mcp-server-rs = "=0.1.0"
mcp-transport-rs = "=0.1.0"
rand = "=0.8.8"
serde = { version = "=1.0.229", features = ["derive"] }
serde_json = "=1.0.151"
thiserror = "=2.0.21"
tokio = { version = "=1.53.2", features = ["full"] }
tokio-stream = "=0.1.19"
tracing = "=0.1.44"
tracing-subscriber = { version = "=0.3.23", features = ["env-filter"] }
