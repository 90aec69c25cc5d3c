[package]
name = "vers"
version = "0.1.0"
edition = "2021"
publish = false

[dependencies]
ash = { version = "=0.38.0", features = ["linked"] }
ash-window = "=0.13.0"
raw-window-handle = "=0.6.2"
log = "=0.4.35"
thiserror = "=2.0.21"
sysinfo = "=0.39.6"
