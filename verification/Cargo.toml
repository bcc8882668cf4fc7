[package]
name = "gjallarhorn"
version = "0.1.0"
edition = "2021"
publish = false

[dependencies]
serde = { version = "1", features = ["derive"] }
serde_json = "1"
sysinfo = "0.33"
nvml-wrapper = "0.10"
default-net = "0.22"
directories = "5"
log = "0.4"
env_logger = "0.11"
