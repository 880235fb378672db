[package]
name = "si_pool_noodle"
version = "0.1.0"
edition = "2021"
publish = false

[dependencies]
rand = "0.8"
tokio = { version = "1", features = ["macros", "process", "rt-multi-thread", "sync", "time"] }
tokio-util = "0.7"
futures = "0.3"
bollard = "*"
tempfile = "3"
