[package]
name = "rust_es"
version = "0.1.0"
edition = "2021"
publish = false

[dependencies]
bytes = "1"
tokio = { version = "1", features = ["rt-multi-thread", "macros", "net", "io-util"] }
uuid = { version = "1", features = ["v4"] }
