[package]
name = "git_glimpse"
version = "0.1.0"
edition = "2021"
publish = false

[dependencies]
clap = { version = "*", features = ["derive"] }
env_logger = "*"
ezcmd = "*"
log = "*"
