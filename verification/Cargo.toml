[package]
name = "fusen"
version = "0.1.0"
edition = "2021"
publish = false

[dependencies]
url = "2"
percent-encoding = "2"
rand = "*"
opentelemetry = "*"
serde = { version = "1", features = ["derive"] }
serde_json = "1"
http = "1"
uuid = { version = "1", features = ["v4"] }
