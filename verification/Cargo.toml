[package]
name = "easy-rpc"
version = "0.1.0"
edition = "2021"
publish = false

[dependencies]
downcast-rs = "=1.2.1"
raw_sync = "0.1"
rmp = "=0.8.15"
rmp-serde = "1.3"
rmpv = "=1.3.1"
serde = "=1.0.229"
serde_bytes = "=0.11.19"
shared_memory = "0.12"
websocket = { version = "=0.26.5", default-features = false, features = ["sync"] }
