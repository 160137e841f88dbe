[package]
name = "orca"
version = "0.1.0"
edition = "2021"
publish = false

[dependencies]
base64 = "0.13"
rand = "0.8"
serde_json = "1"
url = "2"
open = "*"
hyper = { version = "0.14", features = ["client", "server", "http1", "tcp"] }
hyper-tls = "0.5"
tokio = { version = "1", features = ["rt", "macros", "net", "time", "sync"] }
futures = "0.3"
