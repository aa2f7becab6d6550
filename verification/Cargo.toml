[package]
name = "tauri_dev"
version = "0.1.0"
edition = "2021"
publish = false

[dependencies]
anyhow = "=1.0.104"
handlebars = "=4.5.0"
heck = "=0.4.1"
ignore = "=0.4.33"
include_dir = "=0.7.4"
log = "=0.4.34"
notify = "=4.0.18"
serde = { version = "=1.0.229", features = ["derive"] }
serde_json = "=1.0.154"
tauri-bundler = { version = "=1.4.8", default-features = false }
tauri-utils = "=1.5.4"
toml = "=0.5.11"
