[package]
name = "os_bridge"
version = "0.1.0"
edition = "2021"
publish = false

[dependencies]
atty = "*"
dirs = "*"
url = "*"
serde_json = "*"
