[package]
name = "caro_bus"
version = "0.1.0"
edition = "2021"
publish = false

[dependencies]
bson = "2"
bytes = "1"
log = "0.4"
parking_lot = "0.12"
passfd = "0.1"
serde = { version = "1", features = ["derive"] }
tokio = { version = "1", features = ["net", "io-util", "sync", "rt", "rt-multi-thread", "macros"] }
uuid = { version = "1", features = ["v4"] }
