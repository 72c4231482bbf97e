[package]
name = "serial_mcp_server"
version = "0.3.0"
edition = "2021"
publish = false

[dependencies]
base64 = "0.22"
hex = "0.4"
serde = { version = "1", features = ["derive"] }
serde_json = "1"
clap = { version = "4", features = ["derive"] }
toml = "0.8"
tokio = { version = "1", features = ["full"] }
tokio-serial = { version = "5", default-features = false }
serialport = { version = "4", default-features = false }
uuid = { version = "1", features = ["v4"] }
chrono = { version = "0.4", features = ["serde"] }
async-trait = "0.1"
schemars = "1"
rmcp = { version = "0.3", features = ["server", "macros", "transport-io"] }
tracing = "0.1"
tracing-subscriber = { version = "0.3", features = ["env-filter"] }
