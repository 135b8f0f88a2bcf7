[package]
name = "eventstore"
version = "0.1.0"
edition = "2021"
publish = false

[dependencies]
futures = "0.3"
tonic = { version = "0.12", default-features = false, features = ["channel", "codegen"] }
uuid = { version = "1", features = ["v4"] }
