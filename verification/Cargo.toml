[package]
name = "swayconf"
version = "0.1.0"
edition = "2021"
publish = false

[dependencies]
toml = "*"
clap = { version = "*", features = ["derive"] }
clio = { version = "*", features = ["clap-parse"] }
env_logger = "*"
log = "*"
thiserror = "*"
derive_more = { version = "*", features = ["from"] }
