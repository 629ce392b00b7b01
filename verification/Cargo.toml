[package]
name = "poc_coordinator"
version = "0.1.0"
edition = "2021"
publish = false

[dependencies]
crossbeam-channel = "0.5"
futures = "0.3"
tokio = { version = "1", default-features = false, features = ["rt", "time", "sync"] }
url = "2"
