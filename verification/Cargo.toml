[package]
name = "vrc_log_renamer"
version = "0.1.0"
edition = "2021"
publish = false

[dependencies]
anyhow = "1"
cargo_metadata = "0.15"
chrono = "0.4"
itertools = "0.10"
once_cell = "1"
regex = "1"
take-if = "*"
toml = "0.5"
