[package]
name = "durable-ws-client"
version = "0.1.0"
edition = "2021"
publish = false

[dependencies]
async-trait = "0.1"
futures = "0.3"
http = "1"
tokio = { version = "1", features = ["macros", "net", "rt", "sync", "time"] }
tokio-tungstenite = "0.24"
tokio-util = "0.7"
tower = { version = "0.5", features = ["retry"] }
url = "2"
