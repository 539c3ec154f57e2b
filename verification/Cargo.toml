[package]
name = "handy"
version = "0.1.0"
edition = "2021"
publish = false

[dependencies]
anyhow = "1"
flate2 = "1"
futures-util = "0.3"
hound = "3"
log = "0.4"
natural = "0.5"
reqwest = { version = "0.12", default-features = false, features = ["json", "multipart", "stream", "rustls-tls"] }
serde = { version = "1", features = ["derive"] }
serde_json = "1"
strsim = "0.11"
tar = "0.4"
tokio = { version = "1", features = ["time"] }
whisper-rs = "0.13"
