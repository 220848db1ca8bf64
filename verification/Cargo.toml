[package]
name = "mcp_bridge"
version = "0.1.0"
edition = "2021"
publish = false

[dependencies]
uuid = { version = "=1.27.0", features = ["v4"] }
tokio = { version = "=1.53.2", features = ["full"] }
interprocess = { version = "=2.4.4", features = ["tokio"] }
libc = "*"
toml = "*"

[dev-dependencies]
serde_json = "=1.0.151"
