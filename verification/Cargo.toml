[package]
name = "hackdesk"
version = "0.1.0"
edition = "2021"
publish = false

[dependencies]
anyhow = "1"
dirs = "*"
log = "0.4"
serde = { version = "1", features = ["derive"] }
serde_json = "1"
url = "2"
