[package]
name = "planetside"
version = "0.1.0"
edition = "2021"
publish = false

[dependencies]
serde = { version = "1", features = ["derive"] }
serde_json = "1"
nom = "3"
hyper = { version = "0.14", features = ["client", "http1", "tcp"] }
tokio = { version = "1", features = ["rt-multi-thread", "net", "time"] }
websocket = { version = "0.27", default-features = false, features = ["sync", "sync-ssl"] }
