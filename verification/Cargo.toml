[package]
name = "ytpd"
version = "0.1.0"
edition = "2021"
publish = false

[dependencies]
regex = "1"
clap = { version = "4", features = ["derive"] }
dialoguer = "0.11"
futures = "0.3"
indicatif = "0.17"
reqwest = "0.12"
tokio = { version = "1", features = ["full"] }
