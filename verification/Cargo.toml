[package]
name = "pet_app"
version = "0.1.0"
edition = "2021"
publish = false

[dependencies]
sqlite = "=0.37.4"
anyhow = "=1.0.104"
env_logger = "=0.11.11"
