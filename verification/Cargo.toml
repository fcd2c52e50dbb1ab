[package]
name = "frame"
version = "0.1.0"
edition = "2021"
publish = false

[dependencies]
clap = { version = "*", features = ["derive"] }
dirs = "*"
duckdb = { version = "*", default-features = false }
env_logger = "*"
log = "*"
