[package]
name = "petagent_plugins"
version = "0.1.0"
edition = "2021"
publish = false

[dependencies]
chrono = "0.4"
serde_json = "1"
sysinfo = "*"
nvml-wrapper = "*"
wmi = "*"
