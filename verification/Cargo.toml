[package]
name = "serial_master"
version = "0.1.0"
edition = "2021"
publish = false

[dependencies]
anyhow = "=1.0.104"
env_logger = "=0.11.11"
log = "=0.4.34"
rustpython = { version = "=0.4.0", default-features = false }
serde = { version = "=1.0.229", features = ["derive"] }
serde_json = "=1.0.154"
serialport = { version = "=4.10.1", default-features = false }
tokio = { version = "=1.54.1", features = ["sync", "rt"] }
uuid = { version = "=1.29.0", features = ["v4"] }
which = "=8.0.6"
winreg = "=0.56.0"
