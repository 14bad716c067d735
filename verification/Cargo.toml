[package]
name = "rust_mc"
version = "0.1.0"
edition = "2021"
publish = false

[dependencies]
mcproto-rs = "=0.2.0"
tokio = { version = "1", features = ["sync", "rt-multi-thread", "macros", "net", "io-util", "time"] }
anyhow = "1"
log = "0.4"
env_logger = "*"
openssl = "0.10"
rand = "0.8"
