[package]
name = "gws_mcp"
version = "0.1.0"
edition = "2021"
publish = false

[dependencies]
urlencoding = "2"
base64 = "0.22"
url = "2"
uuid = { version = "1", features = ["v4"] }
rand = "0.8"
chrono = "0.4"
serde = { version = "1", features = ["derive"] }
serde_json = "1"
schemars = "0.8"
tokio = { version = "1", features = ["full"] }
reqwest = { version = "0.12", default-features = false, features = ["json", "rustls-tls"] }
async-trait = "0.1"
anyhow = "1"
dirs = "5"
open = "5"
