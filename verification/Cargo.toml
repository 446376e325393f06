[package]
name = "rev8617"
version = "0.1.0"
edition = "2021"
publish = false

[dependencies]
anyhow = "*"
clap = { version = "*", features = ["derive"] }
colored = "*"
serde_json = "*"
tungstenite = "*"
url = "*"
