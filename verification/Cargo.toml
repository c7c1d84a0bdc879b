[package]
name = "lazyfav"
version = "0.1.0"
edition = "2021"
publish = false

[dependencies]
axum = "=0.8.9"
dirs = "=7.0.0"
open = "=5.4.5"
rand = "=0.10.3"
reqwest = { version = "=0.13.5", features = ["form", "json"] }
serde = { version = "=1.0.229", features = ["derive"] }
serde_json = "=1.0.154"
tokio = { version = "=1.54.1", features = ["full"] }
url = "=2.5.8"
