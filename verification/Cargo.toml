[package]
name = "reddit_harvest"
version = "0.1.0"
edition = "2021"
publish = false

[dependencies]
image = "0.24"
regex = "1"
serde_json = "1"
tokio = { version = "1", features = ["macros", "rt-multi-thread", "fs", "io-util"] }
reqwest = { version = "0.11", default-features = false }
