[package]
name = "capituai"
version = "0.1.0"
edition = "2021"
publish = false

[dependencies]
reqwest = { version = "0.12", default-features = false, features = ["json", "multipart", "rustls-tls", "stream"] }
serde_json = "1"
symphonia = { version = "0.5", features = ["mp3"] }
tokio = { version = "1", features = ["time"] }
youtube_dl = "0.10"
