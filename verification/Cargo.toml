[package]
name = "phage_annotate"
version = "0.1.0"
edition = "2021"
publish = false

[dependencies]
clap = { version = "4", features = ["derive"] }
reqwest = { version = "0.11", default-features = false }
tokio = { version = "1", features = ["rt-multi-thread"] }
