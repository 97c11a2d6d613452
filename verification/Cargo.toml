[package]
name = "audio_engine"
version = "0.1.0"
edition = "2021"
publish = false

[dependencies]
base64 = "0.22"
symphonia = "0.5"
serde = { version = "1", features = ["derive"] }
walkdir = "2"
