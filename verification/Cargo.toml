[package]
name = "cli_snap"
version = "0.1.0"
edition = "2021"
publish = false

[dependencies]
shell-words = "1"
ansi_term = "0.12"
clap = { version = "4", features = ["derive"] }
serde = "1"
serde_derive = "1"
toml = "0.8"
