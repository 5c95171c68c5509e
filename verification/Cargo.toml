[package]
name = "pinns"
version = "0.1.0"
edition = "2021"
publish = false

[dependencies]
anyhow = "*"
clap = { version = "*", features = ["derive"] }
env_logger = "*"
getset = "*"
lazy_static = "*"
log = "*"
nix = { version = "*", features = ["sched", "mount", "fs"] }
uuid = { version = "*", features = ["v4"] }
