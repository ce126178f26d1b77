[package]
name = "static_serve"
version = "0.1.0"
edition = "2021"
publish = false

[dependencies]
sha1 = "*"
flate2 = "*"
zstd = "*"
mime_guess = "*"
axum = "*"
bytes = "*"
glob = "*"
