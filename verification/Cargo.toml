[package]
name = "sensor_tools"
version = "0.1.0"
edition = "2021"
publish = false

[dependencies]
anyhow = "=1.0.104"
battery = "=0.7.8"
btleplug = "=0.13.5"
chrono = "=0.4.45"
display-info = "=0.5.10"
git2 = "=0.21.0"
network-interface = "=2.0.5"
nusb = "=0.1.14"
reqwest = { version = "=0.12.28", features = ["json"] }
rmcp = { version = "=3.7.0", features = ["server", "transport-io", "macros"] }
schemars = "=1.2.3"
serde = { version = "=1.0.229", features = ["derive"] }
serde_json = "=1.0.154"
sysinfo = "=0.39.6"
tokio = { version = "=1.54.1", features = ["full"] }
tracing = "=0.1.44"
tracing-subscriber = { version = "=0.3.23", features = ["env-filter"] }
urlencoding = "=2.1.3"
user-idle = "=0.6.0"
