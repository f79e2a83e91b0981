[package]
name = "version_checker"
version = "0.1.0"
edition = "2021"
publish = false

[dependencies]
anyhow = "*"
regex = "*"
reqwest = { version = "*", default-features = false }
term = "*"
tokio = { version = "*", features = ["macros", "rt-multi-thread"] }
