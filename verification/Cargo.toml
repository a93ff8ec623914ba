[package]
name = "fork_map"
version = "0.1.0"
edition = "2021"
publish = false

[dependencies]
anyhow = "*"
libc = "*"
serde = "*"
serde_json = "*"
