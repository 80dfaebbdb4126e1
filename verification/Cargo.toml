[package]
name = "oauth_spoof"
version = "0.1.0"
edition = "2021"
publish = false

[dependencies]
base64 = "*"
fastrand = "*"
hyper = { version = "0.14", features = ["full"] }
log = "*"
serde_json = "*"
tokio = { version = "*", features = ["full"] }
uuid = { version = "*", features = ["v4"] }
