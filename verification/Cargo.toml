[package]
name = "toot_core"
version = "0.1.0"
edition = "2021"
publish = false

[dependencies]
reqwest = { version = "*", default-features = false }
mastodon-async = "*"
tokio = { version = "*", features = ["rt-multi-thread", "macros"] }
futures-util = "*"
open = "*"
html2text = "*"
capitalize = "*"
time = { version = "*", features = ["formatting", "parsing"] }
