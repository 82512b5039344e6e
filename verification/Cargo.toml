[package]
name = "cce_authenticator"
version = "0.1.0"
edition = "2021"
publish = false

[dependencies]
calloop = "*"
env_logger = "0.11"
futures = "0.3"
libc = "0.2"
log = "0.4"
pam-sys = "0.5"
tokio = { version = "1", features = ["full"] }
users = "0.11"
wayland-client = "0.31"
zbus = "5"
