[package]
name = "credentials"
version = "0.1.0"
edition = "2021"
publish = false

[dependencies]
text_io = "0.1"
tokio = { version = "1", default-features = false, features = ["fs"] }
tracing = "0.1"
