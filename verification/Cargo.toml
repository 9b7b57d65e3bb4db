[package]
name = "json_editor"
version = "0.1.0"
edition = "2021"
publish = false

[dependencies]
rand = "=0.8.8"
ratatui = "=0.29.0"

[dev-dependencies]
serde_json = "1"
