[package]
name = "image_cache"
version = "0.1.0"
edition = "2021"
publish = false

[dependencies]
bytes = "*"
reqwest = { version = "*", default-features = false }
tokio = { version = "*", default-features = false, features = ["rt", "macros", "sync", "time"] }
