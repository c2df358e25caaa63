[package]
name = "tdn_collector"
version = "0.1.0"
edition = "2021"
publish = false

[dependencies]
url = "2"
serde_json = "1"
serde = { version = "1", features = ["derive"] }
futures = "0.3"
hyper = { version = "1", features = ["client", "http1"] }
http-body-util = "0.1"
base64 = "0.22"
