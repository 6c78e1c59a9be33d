[package]
name = "rsipstack"
version = "0.1.0"
edition = "2021"
publish = false

[dependencies]
async-trait = "0.1"
base64 = "0.22"
dashmap = "6"
futures = "0.3"
if-addrs = "*"
parking_lot = "0.12"
rand = "0.8"
rustls = { version = "0.23", default-features = false, features = ["ring", "std", "tls12"] }
socket2 = "*"
tokio = { version = "1", features = ["rt", "sync", "time", "net", "macros", "io-util"] }
tokio-rustls = { version = "0.26", default-features = false, features = ["ring", "tls12"] }
tokio-util = "0.7"
tracing = "0.1"
