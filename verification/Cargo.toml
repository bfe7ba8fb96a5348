[package]
name = "autosd"
version = "0.1.0"
edition = "2021"
publish = false

[dependencies]
chrono = "*"
sysinfo = "*"
serde = { version = "1", features = ["derive"] }
serde_json = "1"
