[package]
name = "alabaster"
version = "0.1.0"
edition = "2021"
publish = false

[dependencies]
anyhow = "1"
clap = { version = "4", features = ["derive"] }
ignore = "0.4"
same-file = "1"
serde = { version = "1", features = ["derive"] }
