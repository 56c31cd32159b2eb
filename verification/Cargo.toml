[package]
name = "ladefuchs"
version = "0.1.0"
edition = "2021"
publish = false

[dependencies]
regex = "1"
url = "2"
base64 = "0.22"
percent-encoding = "2"
blake3 = "1"
uuid = { version = "1", features = ["v4", "v7", "serde"] }
mime = "0.3"
serde = { version = "1", features = ["derive"] }
serde_json = "1"
chrono = { version = "0.4", features = ["serde"] }
eyre = "0.6"
tracing = "0.1"
tree_magic_mini = "3"
tokio = { version = "1", features = ["fs", "rt", "time"] }
