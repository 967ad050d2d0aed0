[package]
name = "serial_ssh_term"
version = "0.1.0"
edition = "2021"
publish = false

[dependencies]
keyring = { version = "3", default-features = false }
serialport = { version = "4", default-features = false }
tokio = { version = "1", features = ["rt-multi-thread", "sync", "time", "io-util", "macros"] }
tokio-serial = { version = "5", default-features = false }
async-channel = "2"
async-trait = "0.1"
russh = "*"
serde = { version = "1", features = ["derive"] }
serde_json = "1"
dirs = "6"
