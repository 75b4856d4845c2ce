[package]
name = "rustjslich"
version = "0.1.0"
edition = "2021"
publish = false

[dependencies]
chess = "3.2"
rand = "0.8"
anyhow = "1"
serde = { version = "1", features = ["derive"] }
serde_json = "1"
toml = "0.8"
tokio = { version = "1", features = ["full"] }
tokio-tungstenite = "0.21"
futures-util = "0.3"
clap = { version = "4", features = ["derive"] }
crossterm = "0.27"
tracing = "0.1"
tracing-subscriber = "0.3"
