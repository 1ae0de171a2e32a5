[package]
name = "teapot"
version = "0.1.0"
edition = "2021"
publish = false

[dependencies]
http-body-util = "0.1"
hyper = { version = "1", features = ["server", "http1"] }
hyper-util = { version = "0.1", features = ["tokio"] }
log = "0.4"
tokio = { version = "1", features = ["net", "rt-multi-thread"] }
