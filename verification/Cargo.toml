[package]
name = "tmuxession"
version = "0.1.0"
edition = "2021"
publish = false

[dependencies]
clap = { version = "4", features = ["derive", "cargo"] }
crossterm = "0.27"
urlencoding = "2"
xdg = "2"

[dev-dependencies]
regex = "1"
