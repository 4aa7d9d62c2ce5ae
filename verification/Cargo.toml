[package]
name = "c8d"
version = "1.0.0"
edition = "2021"
publish = false

[dependencies]
clap = "2.33"
termion = "1.5"
tui = "0.8"
