[package]
name = "tls_relay"
version = "0.1.0"
edition = "2021"
publish = false

[dependencies]
tokio = { version = "*", features = ["rt-multi-thread", "net", "io-util", "macros"] }
tokio-rustls = { version = "*", default-features = false, features = ["ring", "tls12"] }
rustls-pemfile = "*"
log = "*"
log4rs = "*"
