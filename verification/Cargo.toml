[package]
name = "newsreader"
version = "0.1.0"
edition = "2021"
publish = false

[dependencies]
aletheia = "*"
crossterm = "0.25"
tokio = { version = "1", features = ["macros", "rt-multi-thread"] }
tui = "0.19"
