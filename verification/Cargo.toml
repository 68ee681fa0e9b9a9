[package]
name = "photography_mind"
version = "0.1.0"
edition = "2021"
publish = false

[dependencies]
serde_json = "*"
serde = { version = "*", features = ["derive"] }
anyhow = "*"
tokio = { version = "*", features = ["rt-multi-thread", "macros", "signal", "net", "io-std", "fs"] }
axum = "*"
rmcp = { version = "*", features = ["server", "transport-io", "transport-streamable-http-server"] }
tracing = "*"
tracing-subscriber = { version = "*", features = ["env-filter"] }
dotenvy = "*"
