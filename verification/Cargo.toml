[package]
name = "mqtt2file"
version = "0.1.0"
edition = "2021"
publish = false

[dependencies]
anyhow = "*"
chrono = "*"
clap = { version = "*", features = ["derive"] }
crossbeam-channel = "*"
ctrlc = "*"
env_logger = "*"
hostname = "*"
log = "*"
paho-mqtt = "*"
