[package]
name = "link_yeeter"
version = "0.1.0"
edition = "2021"
publish = false

[dependencies]
deadqueue = "*"
tokio = { version = "*", features = ["sync", "rt-multi-thread", "macros"] }
tokio-util = "*"
linkify = "*"
url = "*"
rand = "*"
ffprobe = "*"
tempfile = "*"
async-process = "*"
async-fs = "*"
futures = "*"
dotenvy = "*"
which = "*"
