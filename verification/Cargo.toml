[package]
name = "jonect"
version = "0.1.0"
edition = "2021"
publish = false

[dependencies]
bytes = "1"
serde = { version = "1", features = ["derive"] }
serde_json = "1"
tokio = { version = "1", features = ["full"] }
tokio-stream = "0.1"
tokio-util = "0.7"
async-stream = "0.3"
clap = "2"
toml = "0.5"
log = "0.4"
gtk = "0.15"
libpulse-binding = "2"
libpulse-glib-binding = "2"
