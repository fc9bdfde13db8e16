[package]
name = "docker_native_manager"
version = "0.1.0"
edition = "2021"
publish = false

[dependencies]
bollard = "*"
lazy_static = "1"
serde = { version = "1", features = ["derive"] }
serde_json = "1"
tokio = { version = "1", features = ["sync"] }
