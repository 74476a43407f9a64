[package]
name = "weather_agent"
version = "0.1.0"
edition = "2021"
publish = false

[dependencies]
axum = "*"
reqwest = "=0.13.5"
rig-agent = "*"
rig-core = { version = "*", features = ["reqwest"] }
rig-rmcp = "*"
rmcp = { version = "=2.2.0", features = ["client", "transport-streamable-http-client-reqwest"] }
serde = { version = "*", features = ["derive"] }
tokio = { version = "*", features = ["full"] }
tracing = "*"
tracing-subscriber = { version = "*", features = ["env-filter"] }
