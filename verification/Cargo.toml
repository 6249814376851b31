[package]
name = "vitray-widget"
version = "0.1.0"
edition = "2021"
publish = false

[dependencies]
async-channel = "2"
auto-launch = "0.5"
clap = { version = "4", features = ["derive"] }
directories = "5"
serde = { version = "1", features = ["derive"] }
serde_json = "1"
smol = "2"
sysinfo = "0.30"
