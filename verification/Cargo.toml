[package]
name = "origin_proxy"
version = "0.1.0"
edition = "2021"
publish = false

[dependencies]
anyhow = "1"
async-compression = { version = "*", features = ["futures-io", "gzip", "brotli", "deflate"] }
async-dup = "1"
async-h1 = "2"
async-native-tls = "*"
async-std = "1"
http-types = "2"
log = "0.4"
smol = "*"
socks5 = "*"
