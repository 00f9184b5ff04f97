[package]
name = "palladium"
version = "0.1.0"
edition = "2021"
publish = false

[dependencies]
serde = { version = "1", features = ["derive"] }
serde_json = "1"
rand = "0.8"
url = "2"
anyhow = "1"
log = "0.4"
env_logger = "0.11"
dirs = "5"
tokio = { version = "1", features = ["rt-multi-thread", "net", "io-util", "sync", "macros", "time"] }
futures-util = { version = "0.3", default-features = false, features = ["sink", "std"] }
tokio-tungstenite = "0.26"
hyper = { version = "1", features = ["http1", "server"] }
hyper-util = { version = "0.1", features = ["tokio"] }
http-body-util = "0.1"
reqwest = { version = "0.12", default-features = false, features = ["rustls-tls"] }
