[package]
name = "mini_http"
version = "0.1.0"
edition = "2021"
publish = false

[dependencies]
fs-err = "*"
log = "*"
pretty_env_logger = "*"
serde = { version = "*", features = ["derive"] }
toml = "*"
