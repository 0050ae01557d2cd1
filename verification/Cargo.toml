[package]
name = "ups_monitor"
version = "0.1.0"
edition = "2021"
publish = false

[dependencies]
anyhow = "=1.0.104"
async-snmp = "=0.16.0"
clap = { version = "=4.6.7", features = ["derive"] }
humantime-serde = "=1.1.1"
log = "=0.4.35"
serde = { version = "=1.0.229", features = ["derive"] }
serde_yaml = "=0.9.34"
simplelog = "=0.12.2"
thiserror = "=2.0.21"
tokio = { version = "=1.54.1", features = ["rt", "net", "time"] }
