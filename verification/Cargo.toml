[package]
name = "anonymize_places"
version = "0.1.0"
edition = "2021"
publish = false

[dependencies]
clap = "2"
dirs = "1"
env_logger = "0.6"
failure = "0.1"
log = "0.4"
rand = "0.6"
rusqlite = { version = "0.16", features = ["bundled", "functions"] }
