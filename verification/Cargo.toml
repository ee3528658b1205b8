[package]
name = "rumbledome"
version = "0.1.0"
edition = "2021"
publish = false

[dependencies]
crc32fast = "1.4"
heapless = "0.8"
serde = { version = "1", features = ["derive"] }
serde_json = "1"
chrono = "0.4"
clap = { version = "4", features = ["derive"] }
thiserror = "1"
log = "0.4"
env_logger = "0.11"
