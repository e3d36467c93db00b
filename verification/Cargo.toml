[package]
name = "ffinder"
version = "0.1.0"
edition = "2021"
publish = false

[dependencies]
regex = "1"
fuzzy-matcher = "0.3"
jwalk = "0.5"
home = "0.5"
clap = "3.2"
colored = "2"
tokio = { version = "1", features = ["fs", "macros", "rt-multi-thread"] }
futures = "0.3"
