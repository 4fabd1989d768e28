[package]
name = "zsxq_export"
version = "0.1.0"
edition = "2021"
publish = false

[dependencies]
percent-encoding = "2"
mongodb = "2"
tokio = { version = "1", features = ["macros", "rt-multi-thread"] }
clap = { version = "4", features = ["derive"] }
