[package]
name = "session_auth"
version = "0.1.0"
edition = "2021"
publish = false

[dependencies]
argonautica = "*"
biscuit = "*"
chrono = "*"
rand = "*"
serde = { version = "*", features = ["derive"] }
serde_json = "*"
uuid = { version = "*", features = ["v4"] }
