[package]
name = "burn_cli"
version = "0.1.0"
edition = "2021"
publish = false

[dependencies]
anyhow = "1"
clap = { version = "4", features = ["derive"] }
console = "0.15"
minijinja = "2"
minijinja-embed = "2"
toml_edit = "0.22"
