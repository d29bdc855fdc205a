[package]
name = "agent_workflow"
version = "0.1.0"
edition = "2021"
publish = false

[dependencies]
a2a-rs = { version = "=0.3.0", features = ["http-client", "http-server"] }
anyhow = "=1.0.104"
async-trait = "=0.1.92"
futures = "=0.3.34"
regex = "=1.13.1"
reqwest = { version = "=0.12.28", features = ["json"] }
rmcp = "=3.7.0"
serde = { version = "=1.0.229", features = ["derive"] }
serde_json = "=1.0.154"
tokio = { version = "=1.54.1", features = ["time", "sync"] }
toml = "=0.8.23"
tracing = "=0.1.44"
tracing-subscriber = { version = "=0.3.23", features = ["env-filter"] }
uuid = { version = "=1.29.0", features = ["v4"] }
