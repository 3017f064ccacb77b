[package]
name = "minecraft-server-launcher"
version = "0.1.0"
edition = "2021"
publish = false

[dependencies]
home = "*"
serde = { version = "1", features = ["derive"] }
serde_json = "1"
tokio = { version = "1", features = ["full"] }
hyper = { version = "0.14", features = ["client", "http1", "http2", "tcp", "stream"] }
hyper-tls = "0.5"
follow-redirects = "*"
termcolor = "1"
chrono = "0.4"
tar = "0.4"
