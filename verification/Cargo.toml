[package]
name = "lucet_core"
version = "0.1.0"
edition = "2021"
publish = false

[dependencies]
human-size = "0.4"
clap = "2"
tempfile = "3"
