[package]
name = "release_plz"
version = "0.1.0"
edition = "2021"
publish = false

[dependencies]
anyhow = "1"
cargo_metadata = "*"
chrono = "0.4"
clap = { version = "4", features = ["derive", "env"] }
dirs = "*"
regex = "1"
secrecy = "*"
toml = "*"
url = "2"
