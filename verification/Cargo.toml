[package]
name = "icy_bootstrap"
version = "0.1.0"
edition = "2021"
publish = false

[dependencies]
buttplug = { version = "=7.1.16", default-features = false, features = ["tokio-runtime", "client", "server", "serialize-json"] }
futures = "=0.3.34"
tokio = { version = "=1.53.2", features = ["rt", "rt-multi-thread"] }
