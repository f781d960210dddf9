[package]
name = "mathjax"
version = "0.1.0"
edition = "2021"
publish = false

[dependencies]
node-semver = "2"
tempfile = "3"
zip-extract = "0.1"
headless_chrome = "1"
resvg = "0.34"
image = "0.24"

[dev-dependencies]
zip = "0.6"
