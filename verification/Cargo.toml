[package]
name = "sshm"
version = "0.1.0"
edition = "2021"
publish = false

[dependencies]
comfy-table = "*"
dirs = "*"
regex = "*"
rusqlite = { version = "*", features = ["bundled"] }
termion = "*"
