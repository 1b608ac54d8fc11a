[package]
name = "wasi_vfs_cli"
version = "0.1.0"
edition = "2021"
publish = false

[dependencies]
anyhow = "1"
structopt = "0.3"
tempdir = "0.3"
uuid = { version = "1", features = ["v4"] }
walkdir = "2"
wizer = "*"
xz2 = "0.1"
