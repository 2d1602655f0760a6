[package]
name = "fdown"
version = "0.1.0"
edition = "2021"
publish = false

[dependencies]
clap = "=2.34.0"
hyper = { version = "=0.14.32", features = ["client", "http1", "tcp"] }
regex = "=1.13.1"
serde_json = { version = "=1.0.154", features = ["preserve_order"] }
tokio = { version = "1", features = ["rt"] }
