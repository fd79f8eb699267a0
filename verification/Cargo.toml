[package]
name = "purple_icq"
version = "0.1.0"
edition = "2021"
publish = false

[dependencies]
async-std = { version = "1", features = ["unstable"] }
futures = "0.3"
htmlescape = "0.3"
log = "0.4"
rand = "0.7"
serde = { version = "1", features = ["derive"] }
serde_json = "1"
serde_urlencoded = "0.6"
surf = "1.0"
url = "2"
uuid = { version = "0.8", features = ["v5"] }
