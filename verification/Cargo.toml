[package]
name = "downloader"
version = "0.1.0"
edition = "2021"
publish = false

[dependencies]
anyhow = "1"
chrono = "0.4"
log = "0.4"
log4rs = "1"
path-clean = "1"
tokio = { version = "1", features = ["fs", "macros", "process", "rt-multi-thread", "time"] }
