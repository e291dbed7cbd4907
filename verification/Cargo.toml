[package]
name = "cef_unity"
version = "0.1.0"
edition = "2021"
publish = false

[dependencies]
image = { version = "0.25", default-features = false, features = ["png"] }
ipc-channel = "0.20"
libc = "0.2"
serde = { version = "1", features = ["derive"] }
shared_memory = "0.12"
