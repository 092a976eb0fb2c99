[package]
name = "turboscraper"
version = "0.1.0"
edition = "2021"
publish = false

[dependencies]
regex = "1"
serde = { version = "1", features = ["derive"] }
serde_json = "1"
url = "2"
chrono = { version = "0.4", features = ["serde"] }
uuid = { version = "1", features = ["v7"] }
tokio = { version = "1", features = ["rt-multi-thread", "macros", "time"] }
futures = "0.3"
async-trait = "0.1"
log = "0.4"
env_logger = "0.11"
anyhow = "1"
thiserror = "1"
parking_lot = "0.12"
erased-serde = "0.4"
reqwest = { version = "0.12", default-features = false }
