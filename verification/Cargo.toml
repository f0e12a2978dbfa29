[package]
name = "buoy"
version = "0.1.0"
edition = "2021"
publish = false

[dependencies]
clap = { version = "4", features = ["derive"] }
csv = "1"
libm = "0.2"
log = "0.4"
pretty_env_logger = "0.5"
serde = { version = "1", features = ["derive"] }
toml = "0.8"
