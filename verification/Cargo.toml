[package]
name = "spinrt"
version = "0.1.0"
edition = "2021"
publish = false

[dependencies]
crossbeam-deque = "0.8"
socket2 = { version = "0.5", features = ["all"] }
