[package]
name = "pipes_rs"
version = "0.1.0"
edition = "2021"
publish = false

[dependencies]
oorandom = "*"
tincture = "*"
unicode-width = "*"
crossterm = "*"
anyhow = "*"
clap = { version = "4", features = ["derive"] }
serde = { version = "*", features = ["derive"] }
toml = "*"
etcetera = "*"
