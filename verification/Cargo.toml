[package]
name = "portman"
version = "0.1.0"
edition = "2021"
publish = false

[dependencies]
actix-web = "*"
bus = "*"
crossbeam-channel = "*"
env_logger = "*"
log = "*"
