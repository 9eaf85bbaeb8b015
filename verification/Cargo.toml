[package]
name = "host_requirements"
version = "0.1.0"
edition = "2021"
publish = false

[dependencies]
os_info = "*"
steamlocate = "*"
serde = { version = "*", features = ["derive"] }
serde_json = "*"
