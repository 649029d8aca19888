[package]
name = "song_recognition"
version = "0.1.0"
edition = "2021"
publish = false

[dependencies]
rand = "0.8"
reqwest = { version = "0.11", features = ["blocking", "json"] }
serde_json = "1"
uuid = { version = "0.8", features = ["v4"] }
