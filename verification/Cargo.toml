[package]
name = "htb"
version = "0.1.0"
edition = "2021"
publish = false

[dependencies]
json = "*"
attohttpc = "*"
clap = { version = "*", features = ["derive"] }
