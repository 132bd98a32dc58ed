[package]
name = "erqwest"
version = "0.1.0"
edition = "2021"
publish = false

[dependencies]
bytes = "1"
futures = "0.3"
reqwest = { version = "0.11", default-features = false, features = ["stream"] }
rustler = "*"
tokio = { version = "1", features = ["rt-multi-thread", "time", "macros"] }
