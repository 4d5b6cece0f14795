[package]
name = "adsbee"
version = "0.1.0"
edition = "2021"
publish = false

[dependencies]
crc = "=3.4.0"
uuid = "=1.29.0"
chrono = { version = "=0.4.45", default-features = false, features = ["alloc"] }
bytes = "=1.12.1"
tokio = { version = "=1.54.1", default-features = false, features = ["io-util", "sync", "rt", "net", "process"] }
futures-util = { version = "=0.3.34", default-features = false, features = ["std"] }
