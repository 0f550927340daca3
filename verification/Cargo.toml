[package]
name = "json_to_fcm"
version = "0.1.0"
edition = "2021"

[dependencies]
base64 = "*"
fcmlib = "*"
serde = { version = "*", features = ["derive"] }
serde_json = "*"
