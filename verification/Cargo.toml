[package]
name = "aoko"
version = "0.1.0"
edition = "2021"
publish = false

[dependencies]
gilrs = "*"
clap = { version = "*", features = ["derive"] }
ctrlc = "*"
eyre = "*"
