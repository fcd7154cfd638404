[package]
name = "invoicer"
version = "0.1.0"
edition = "2021"
publish = false

[dependencies]
base64 = "0.13"
reqwest = { version = "0.11", features = ["json"] }
serde = { version = "1", features = ["derive"] }
serde_json = "1"
time = { version = "0.3", features = ["formatting", "macros"] }
tokio = { version = "1", features = ["full"] }
url = "2"
