[package]
name = "replay_log"
version = "0.1.0"
edition = "2021"
publish = false

[dependencies]
anyhow = "=1.0.104"
clap = "=2.34.0"
ioctls = "=0.6.2"
nix = { version = "=0.31.3", features = ["fs", "uio"] }
