[package]
name = "cargo_info"
version = "0.1.0"
edition = "2021"
publish = false

[dependencies]
anyhow = "1"
chrono = "0.4"
chrono-humanize = "0.2"
clap = { version = "4", features = ["derive"] }
crates_io_api = "*"
fmtools = "*"
