[package]
name = "audioconv"
version = "0.1.0"
edition = "2021"
publish = false

[dependencies]
anyhow = "1"
clap = { version = "4", features = ["derive"] }
indicatif = "0.17"
inquire = "0.7"
tokio = { version = "1", features = ["macros", "rt-multi-thread"] }
walkdir = "2"
