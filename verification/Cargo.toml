[package]
name = "gnostic"
version = "0.1.0"
edition = "2021"
publish = false

[dependencies]
yaml-rust2 = "*"
regex = "1"
url = "2"
serde = { version = "1", features = ["derive"] }
serde_json = "1"
serde_yaml = "0.9"
thiserror = "1"
log = "0.4"
once_cell = "1"
parking_lot = "0.12"
tokio = { version = "1", features = ["rt", "net", "time"] }
hyper = { version = "0.14", features = ["client", "http1", "tcp"] }
http = "0.2"
reqwest = { version = "0.11", default-features = false, features = ["blocking", "json"] }
