[package]
name = "largo"
version = "0.1.0"
edition = "2021"
publish = false

[dependencies]
anyhow = "1"
chrono = "0.4"
clap = { version = "4", features = ["derive"] }
itertools = "*"
serde = { version = "1", features = ["derive"] }
termcolor = "1"
tokio = { version = "1", features = ["io-util", "macros", "process", "rt-multi-thread"] }
tokio-stream = { version = "0.1", features = ["io-util"] }
toml = "*"
