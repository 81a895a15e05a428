[package]
name = "sentry_tunnel"
version = "0.1.0"
edition = "2021"
publish = false

[dependencies]
gotham = "*"
isahc = "*"
log = "*"
mime = "*"
sentry-types = "*"
serde_json = "*"
