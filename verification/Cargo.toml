[package]
name = "win32yank"
version = "0.1.0"
edition = "2021"
publish = false

[dependencies]
clipboard-win = "*"
docopt = "*"
serde = { version = "*", features = ["derive"] }
