[package]
name = "dynamixel2"
version = "0.10.0"
edition = "2021"
publish = false

[dependencies]
serial2 = "*"
clap = { version = "4", features = ["derive"] }
clap_complete = "4"
env_logger = "*"
log = "*"
