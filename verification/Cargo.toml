[package]
name = "onepurge"
version = "0.1.0"
edition = "2021"
publish = false

[dependencies]
sha2 = "0.10"
tokio = { version = "1", features = ["rt", "rt-multi-thread", "fs"] }
walkdir = "2"
dirs = "5"
chrono = "0.4"
anyhow = "1"
log = "0.4"
