[package]
name = "json_rpc2"
version = "0.1.0"
edition = "2021"
publish = false

[dependencies]
serde_json = "1"
rand = "0.8"
serde = { version = "1", features = ["derive"] }
thiserror = "1"
async-trait = "0.1"
