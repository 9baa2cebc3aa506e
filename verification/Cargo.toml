[package]
name = "instructor"
version = "0.1.0"
edition = "2021"
publish = false

[dependencies]
serde = { version = "=1.0.229", features = ["derive"] }
serde_json = "=1.0.151"
openai-api-rs = "=10.0.2"
reqwest = { version = "=0.13.5", default-features = false, features = ["json"] }
tokio = { version = "*", default-features = false, features = ["rt"] }
