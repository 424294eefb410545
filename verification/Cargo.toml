[package]
name = "wasi_tcp"
version = "0.1.0"
edition = "2021"
publish = false

[dependencies]
tokio = { version = "1", features = ["net", "rt"] }
rustix = { version = "0.38", features = ["net"] }
cap-std = "3"
cap-net-ext = "3"
io-lifetimes = "2"
futures = "0.3"
