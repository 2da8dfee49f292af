[package]
name = "phonecall"
version = "0.1.0"
edition = "2021"
publish = false

[dependencies]
tokio = { version = "1", default-features = false, features = ["sync", "rt", "time"] }
futures = "0.3"
thiserror = "1"

[dev-dependencies]
anyhow = "1"
