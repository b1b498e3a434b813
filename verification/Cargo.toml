[package]
name = "open_jtalk_engine"
version = "0.1.0"
edition = "2021"
publish = false

[dependencies]
anyhow = "1"
tempfile = "3"
thiserror = "1"
tokio = { version = "1", features = ["rt"] }
