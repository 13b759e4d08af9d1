[package]
name = "market_stream"
version = "0.1.0"
edition = "2021"
publish = false

[dependencies]
fast-socks5 = "*"
futures = "0.3"
serde = "1"
serde_json = "1"
tokio = { version = "1", features = ["net"] }
tokio-tungstenite = { version = "*", features = ["native-tls"] }
url = "2"
