[package]
name = "ufile_core"
version = "0.1.0"
edition = "2021"
publish = false

[dependencies]
anyhow = "1"
base64 = "*"
bytes = "1"
chrono = "*"
futures = "0.3"
hmac = "*"
md5 = "*"
mediatype = "*"
num_cpus = "1"
reqwest = { version = "0.12", default-features = false, features = ["json"] }
serde = { version = "1", features = ["derive"] }
serde_json = "1"
sha1 = "*"
tokio = { version = "1", features = ["rt", "rt-multi-thread", "sync", "fs", "io-util", "macros"] }
urlencoding = "*"
