[package]
name = "nui"
version = "0.1.0"
edition = "2021"
publish = false

[dependencies]
dashmap = "*"
tokio = { version = "*", features = ["net", "io-util", "rt-multi-thread", "macros"] }
