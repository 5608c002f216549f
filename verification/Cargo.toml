[package]
name = "rfc2544"
version = "0.1.0"
edition = "2021"
publish = false

[dependencies]
axum = "*"
env_logger = "*"
log = "*"
macaddr = "*"
rbfrt = "*"
schemars = "*"
serde = { version = "1", features = ["derive"] }
serde_json = "1"
statrs = "*"
tokio = { version = "1", features = ["full"] }
