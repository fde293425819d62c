[package]
name = "hldemo"
version = "0.1.0"
edition = "2021"
publish = false

[dependencies]
nom = { version = "4", features = ["verbose-errors"] }
error-chain = { version = "0.12", default-features = false }
quick-error = "1"
memmap = "0.5"
