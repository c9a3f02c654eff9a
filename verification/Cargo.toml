[package]
name = "goat"
version = "0.1.0"
edition = "2021"
publish = false

[dependencies]
which = "*"
nix = { version = "*", features = ["user"] }
mlua = { version = "*", features = ["lua54", "vendored"] }
anyhow = "*"
clap = { version = "*", features = ["derive"] }
log = "*"
env_logger = "*"
