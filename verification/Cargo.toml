[package]
name = "audiovibe_core"
version = "0.1.0"
edition = "2021"
publish = false

[dependencies]
uuid = { version = "1", features = ["v4"] }
chrono = "0.4"
base64 = "0.22"
rodio = "0.21"
