[package]
name = "gh_proxy"
version = "0.1.0"
edition = "2021"
publish = false

[dependencies]
async-trait = "0.1"
clap = { version = "4", features = ["derive", "env"] }
env_logger = "0.11"
http = "1"
log = "0.4"
pingora = { version = "*", features = ["proxy", "rustls"] }
