[package]
name = "circle_bridge"
version = "0.1.0"
edition = "2021"
publish = false

[dependencies]
lazy_static = "1"
libloading = "0.8"
tokio = { version = "1", features = ["macros", "rt-multi-thread", "sync", "time"] }
