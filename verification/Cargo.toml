[package]
name = "grip"
version = "0.1.0"
edition = "2021"
publish = false

[dependencies]
hyper = { version = "*", features = ["client", "http1"] }
hyper-tls = "*"
hyper-util = { version = "*", features = ["client-legacy", "http1", "tokio"] }
http-body-util = "*"
tokio = { version = "*", features = ["rt", "time"] }
futures = "*"
bytes = "*"
crossbeam-channel = "*"
rust-ini = "*"
