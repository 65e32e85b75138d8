[package]
name = "bats"
version = "0.1.0"
edition = "2021"
publish = false

[dependencies]
anyhow = "1"
arrayvec = "0.7"
clap = { version = "4", features = ["derive"] }
crossbeam-channel = "0.5"
crossterm = "0.27"
env_logger = "*"
guile-3-sys = "*"
hound = "3"
jack = "0.11"
lazy_static = "1"
livi = "*"
log = "0.4"
ratatui = "*"
sdl2 = "*"
serde = { version = "1", features = ["derive"] }
wmidi = "4"
