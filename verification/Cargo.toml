[package]
name = "tunnel_lifecycle"
version = "0.1.0"
edition = "2021"
publish = false

[dependencies]
async-trait = "0.1"
cfg-if = "1"
futures = "0.3"
gethostname = "0.4"
lazy_static = "1"
pin-project = "1"
rand = "0.8"
regex = "1"
reqwest = { version = "0.11", default-features = false }
serde = { version = "1", features = ["derive"] }
serde_json = "1"
tokio = { version = "1", features = ["full"] }
uuid = { version = "1", features = ["v4"] }
