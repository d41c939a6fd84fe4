[package]
name = "live_server"
version = "0.1.0"
edition = "2021"
publish = false

[dependencies]
async-std = "1"
log = "0.4"
mime_guess = "2"
notify = "4"
tide = "0.16"
tide-websockets = "0.4"
uuid = { version = "0.8", features = ["v4"] }
