[package]
name = "osu_client"
version = "0.1.0"
edition = "2021"
publish = false

[dependencies]
bytes = "1"
dashmap = "5"
futures = "0.3"
hyper = { version = "0.14", features = ["client", "http1", "http2", "tcp"] }
hyper-rustls = { version = "0.23", features = ["http2"] }
leaky-bucket-lite = "0.5"
prometheus = { version = "0.13", default-features = false }
serde = { version = "1", features = ["derive"] }
serde_json = "1"
tokio = { version = "1", features = ["rt", "time", "sync", "macros"] }
url = "2"
