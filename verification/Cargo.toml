[package]
name = "wallch"
version = "0.1.0"
edition = "2021"
publish = false

[dependencies]
anyhow = "*"
clap = "*"
dirs = "*"
glob = "*"
humanize-rs = "*"
rand = "*"
serde = { version = "*", features = ["derive"] }
toml = "*"
