[package]
name = "zentinel_agents"
version = "0.1.0"
edition = "2021"
publish = false

[dependencies]
base64 = "*"
hex = "*"
serde = { version = "*", features = ["derive"] }
serde_json = "*"
sha2 = "*"
tokio = { version = "*", features = ["net", "io-util", "rt", "sync", "time", "macros"] }
toml = "*"
