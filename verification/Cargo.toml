[package]
name = "sparka"
version = "0.1.0"
edition = "2021"
publish = false

[dependencies]
android_logger = "*"
anyhow = "1"
base64 = "0.21"
chrono = { version = "0.4", features = ["serde"] }
jni = "0.20"
log = "0.4"
mime_guess = "2"
reqwest = { version = "0.11", features = ["json", "multipart"] }
rusqlite = "*"
serde = { version = "1", features = ["derive"] }
serde_json = "1"
tokio = { version = "1", features = ["rt", "rt-multi-thread"] }
