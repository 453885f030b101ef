[package]
name = "wipe"
version = "0.1.0"
edition = "2021"
publish = false

[dependencies]
cancellation = "0.1"
clap = { version = "4", features = ["derive"] }
crossterm = "*"
ctrlc = "3"
rand = "0.8"
