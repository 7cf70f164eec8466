[package]
name = "telnet_bbs"
version = "0.1.0"
edition = "2021"
publish = false

[dependencies]
bcrypt = "*"
crossbeam-channel = "*"
rusqlite = "*"
serde_json = "*"
