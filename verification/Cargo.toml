[package]
name = "gdax_rs"
version = "0.1.0"
edition = "2021"

[dependencies]
chrono = { version = "0.4", features = ["serde"] }
futures = "0.1"
hyper = "0.11"
itertools = "0.7"
percent-encoding = "1.0"
serde = "1"
serde_derive = "1"
serde_json = "1"
tokio-core = "0.1"
uuid = { version = "1", features = ["serde"] }
