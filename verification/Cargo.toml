[package]
name = "mmlib"
version = "0.1.0"
edition = "2021"
publish = false

[dependencies]
git2 = { version = "*", default-features = false }
serde_json = "*"
fs-err = "*"
dirs = "*"

[dev-dependencies]
tempfile = "*"
