[package]
name = "coding_agent"
version = "0.1.0"
edition = "2021"
publish = false

[dependencies]
async-openai = { version = "=0.43.0", features = ["byot", "chat-completion"] }
color-eyre = "=0.6.5"
crossterm = { version = "=0.29.0", features = ["event-stream"] }
dotenvy = "=0.15.7"
ratatui = "=0.30.2"
serde = { version = "=1.0.229", features = ["derive"] }
serde_json = "=1.0.154"
tokio = { version = "=1.54.1", features = ["full"] }
tokio-stream = "=0.1.19"
