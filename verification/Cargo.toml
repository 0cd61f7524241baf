[package]
name = "hwtelemetry"
version = "0.1.0"
edition = "2021"
publish = false

[dependencies]
serde = { version = "1", features = ["derive"] }
sysinfo = "0.32"
winreg = "0.52"
wmi = "0.13"
