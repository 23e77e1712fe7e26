[package]
name = "selected_text"
version = "0.1.0"
edition = "2021"
publish = false

[dependencies]
napi = { version = "=2.16.17", features = ["async"] }
napi-derive = "=2.16.13"
thiserror = "=2.0.21"
tokio = { version = "=1.53.2", features = ["rt", "sync", "time"] }
