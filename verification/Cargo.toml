[package]
name = "sone_proxy"
version = "0.1.0"
edition = "2021"
publish = false

[dependencies]
reqwest = { version = "0.11", default-features = false, features = ["rustls-tls", "socks"] }
tokio = { version = "1", features = ["rt", "rt-multi-thread", "time"] }
dirs = "5"
log = "0.4"
