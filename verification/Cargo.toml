[package]
name = "h2_dispatch"
version = "0.1.0"
edition = "2021"
publish = false

[dependencies]
h2 = "*"
http = "*"
tokio = { version = "*", features = ["io-util"] }
futures-channel = "*"
futures-util = "*"
bytes = "*"
