[package]
name = "netperf"
version = "0.1.0"
edition = "2021"
publish = false

[dependencies]
chrono = "*"
clap = { version = "*", features = ["derive"] }
ctrlc = "*"
libc = "*"
serde = { version = "*", features = ["derive"] }
serde_json = "*"
