[package]
name = "sftp_browser"
version = "0.1.0"
edition = "2021"
publish = false

[dependencies]
nanoid = "*"
russh = "*"
russh-sftp = "*"
serde = { version = "*", features = ["derive"] }
serde_json = "*"
tokio = { version = "*", features = ["rt", "rt-multi-thread", "net", "io-util", "macros"] }
