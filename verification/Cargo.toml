[package]
name = "cargo_clone"
version = "1.2.0"
edition = "2021"
publish = false

[dependencies]
anyhow = "1"
clap = { version = "4", features = ["derive"] }
semver = "1"
url = "2"
walkdir = "2"
