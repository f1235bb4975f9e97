[package]
name = "dirscan"
version = "0.1.0"
edition = "2021"
publish = false

[dependencies]
url = "*"
log = "*"
futures = "*"
tokio = { version = "*", default-features = false, features = ["rt", "rt-multi-thread", "sync", "fs", "io-util"] }
reqwest = { version = "*", default-features = false }
