[package]
name = "ssh_forward"
version = "0.1.0"
edition = "2021"
publish = false

[dependencies]
anyhow = "1"
async-io = "1"
async-ssh2-lite = { version = "=0.5.0", features = ["async-io"] }
futures = "=0.3.34"
futures-lite = "1"
platform-dirs = "=0.3.0"
serde = { version = "1", features = ["derive"] }
serde_yaml = "=0.9.34"
tokio = { version = "=1.53.2", features = ["full"] }
