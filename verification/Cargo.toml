[package]
name = "nodegroup"
version = "0.1.0"
edition = "2021"
publish = false

[dependencies]
uuid = { version = "1", features = ["v4"] }
tokio = { version = "1", features = ["sync"] }
tonic = "0.8"
prost = "0.11"
