[package]
name = "oplog_state"
version = "0.1.0"
edition = "2021"
publish = false

[dependencies]
anyhow = "1"
serde = "1"
toml = "0.8"
