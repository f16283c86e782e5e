[package]
name = "arcflash"
version = "0.1.0"
edition = "2021"
publish = false

[dependencies]
sys-info = "*"
dirs = "*"
rosc = "*"
serde = { version = "*", features = ["derive"] }
toml = "*"
clap = "*"
log = "*"
env_logger = "*"
