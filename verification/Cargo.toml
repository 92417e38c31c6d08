[package]
name = "kactus_ingest"
version = "0.1.0"
edition = "2021"
publish = false

[dependencies]
rand = "0.8"
serde = { version = "1", features = ["derive"] }
serde_json = "1"
csv = "1"
futures = "0.3"
tokio = { version = "1", features = ["full"] }
reqwest = { version = "*", default-features = false, features = ["gzip", "brotli", "deflate"] }
redis = "*"
tarpc = { version = "*", features = ["serde-transport", "serde-transport-json", "tcp"] }
tokio-zookeeper = "*"
arguments = "*"
