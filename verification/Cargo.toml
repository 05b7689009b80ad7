[package]
name = "doorlock"
version = "0.1.0"
edition = "2021"
publish = false

[dependencies]
heapless = "0.7"
cloudevents-sdk = "0.5"
serde_json = "1"
serde = { version = "1", features = ["derive"] }
anyhow = "1"
log = "0.4"
env_logger = { version = "0.9", default-features = false }
clap = { version = "3", features = ["derive"] }
tokio = { version = "1", features = ["full"] }
futures = "0.3"
hyper = { version = "0.14", features = ["full"] }
paho-mqtt = { version = "0.11", default-features = false, features = ["bundled"] }
tera = { version = "1", default-features = false }
lazy_static = "1"
reqwest = { version = "0.11", default-features = false, features = ["json"] }
uuid = "1"
humantime = "2"
