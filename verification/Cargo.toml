[package]
name = "clap_help"
version = "0.1.0"
edition = "2021"
publish = false

[dependencies]
clap = { version = "=4.6.7", features = ["env"] }
termimad = "=0.35.5"
terminal-light = "=1.9.1"
