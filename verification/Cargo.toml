[package]
name = "xactor"
version = "0.1.0"
edition = "2021"
publish = false

[dependencies]
anyhow = "1"
fnv = "1"
futures = { version = "0.3", default-features = false, features = ["std"] }
once_cell = "1"
tokio = { version = "1", default-features = false, features = ["rt", "rt-multi-thread", "time"] }
