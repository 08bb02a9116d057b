[package]
name = "activityping"
version = "0.1.0"
edition = "2021"
publish = false

[dependencies]
base64 = "=0.22.1"
chrono = "=0.4.45"
image = { version = "0.25", default-features = false, features = ["png"] }
regex = "=1.13.1"
reqwest = { version = "=0.12.28", default-features = false, features = ["blocking"] }
serde = { version = "=1.0.229", features = ["derive"] }
serde_json = "=1.0.154"
uuid = { version = "=1.29.0", features = ["v4"] }
