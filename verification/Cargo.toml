[package]
name = "polar"
version = "0.1.0"
edition = "2021"
publish = false

[dependencies]
chrono = { version = "=0.4.45", features = ["serde"] }
reqwest = { version = "=0.13.5", default-features = false, features = ["json"] }
serde = { version = "=1.0.229", features = ["derive"] }
serde_json = "1"
url = { version = "=2.5.8", features = ["serde"] }
uuid = { version = "=1.27.0", features = ["serde"] }
