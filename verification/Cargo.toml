[package]
name = "wattmon"
version = "0.1.0"
edition = "2021"
publish = false

[dependencies]
nvml-wrapper = "0.10"
sysinfo = "0.30"
chrono = "0.4"
serde_json = "1"
