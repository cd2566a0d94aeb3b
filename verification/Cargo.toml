[package]
name = "gb-core"
version = "0.1.0"
edition = "2021"
publish = false

[dependencies]
bincode = "=1.3.3"
bytemuck = "=1.23.2"
dirs = "=6.0.0"
env_logger = { version = "=0.11.8", default-features = false }
pollster = "=0.4.0"
serde = { version = "1", features = ["derive"] }
serde-big-array = "0.5"
serde_json = "1"
