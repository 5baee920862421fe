[package]
name = "lanshare"
version = "0.1.0"
edition = "2021"
publish = false

[dependencies]
infer = "*"
urlencoding = "*"
names = { version = "*", default-features = false }
mdns-sd = "*"
hostname = "*"
local-ip-address = "*"
serde = { version = "1", features = ["derive"] }
serde_json = "1"
tokio = { version = "1", features = ["full"] }
tokio-util = { version = "*", features = ["codec"] }
futures = "*"
axum = { version = "*", features = ["multipart"] }
reqwest = { version = "*", default-features = false, features = ["multipart", "json", "stream"] }
