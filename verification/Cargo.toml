[package]
name = "borgify"
version = "0.1.0"
edition = "2021"
publish = false

[dependencies]
hmac-sha256 = "*"
serde_json = "*"
serde = { version = "*", features = ["derive"] }
chrono = "*"
os_pipe = "*"
libc = "*"
