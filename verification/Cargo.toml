[package]
name = "loopautoma"
version = "0.1.0"
edition = "2021"
publish = false

[dependencies]
ahash = { version = "=0.8.12", default-features = false }
base64 = "=0.23.1"
image = { version = "=0.25.10", default-features = false, features = ["png"] }
serde_json = "=1.0.151"
serde = { version = "=1.0.229", features = ["derive"] }
reqwest = { version = "=0.13.5", default-features = false, features = ["blocking", "json"] }
tokio = { version = "=1.53.2", features = ["rt-multi-thread"] }
xcap = "=0.9.8"
enigo = "=0.6.1"
