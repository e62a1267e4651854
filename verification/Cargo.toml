[package]
name = "tictactoe"
version = "0.1.0"
edition = "2021"
publish = false

[dependencies]
ratatui = "0.29"
color-eyre = "0.6"
async-trait = "0.1"
tokio = { version = "1", features = ["macros", "rt-multi-thread"] }
