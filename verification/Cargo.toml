[package]
name = "rsfbclient"
version = "0.1.0"
edition = "2021"
publish = false

[dependencies]
lru-cache = "*"
r2d2 = "*"
chrono = "*"
