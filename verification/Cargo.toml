[package]
name = "handflip"
version = "0.1.0"
edition = "2021"
publish = false

[dependencies]
http-types = "*"
async-h1 = "*"
async-net = "*"
futures = "*"
smol = "*"
structopt = "*"
env_logger = "*"
log = "*"
