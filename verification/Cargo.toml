[package]
name = "git_context_server"
version = "0.1.0"
edition = "2021"
publish = false

[dependencies]
which = "*"
serde_json = "*"
log = "*"
env_logger = "*"
