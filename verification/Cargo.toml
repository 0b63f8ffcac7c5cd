[package]
name = "moustache_control_center"
version = "2.0.0"
edition = "2021"
publish = false

[dependencies]
uuid = "=1.29.1"
getrandom = "=0.4.3"
serde = { version = "=1.0.229", features = ["derive"] }
serde_json = "=1.0.154"
sysinfo = { version = "=0.33.1", default-features = false, features = ["system", "disk", "network"] }
libloading = "=0.8.9"
