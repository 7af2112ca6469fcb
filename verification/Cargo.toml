[package]
name = "local_agent"
version = "0.1.0"
edition = "2021"
publish = false

[dependencies]
async-stream = "=0.3.6"
futures = "=0.3.34"
futures-util = "=0.3.34"
log = "=0.4.35"
prost-types = "=0.14.4"
reqwest = { version = "=0.12.28", default-features = false, features = ["stream"] }
reqwest-eventsource = "=0.6.0"
schemars = "1"
serde = { version = "=1.0.229", features = ["derive"] }
serde_json = "=1.0.154"
url = "=2.5.8"
uuid = { version = "=1.29.0", features = ["v4"] }
