[package]
name = "sidekick"
version = "0.1.0"
edition = "2021"
publish = false

[dependencies]
rand = "=0.8.8"
crossterm = "=0.29.0"
glutin = "=0.28.0"
rgx = { version = "=0.8.1", features = ["renderer"] }
