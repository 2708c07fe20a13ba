[package]
name = "shexec"
version = "0.1.0"
edition = "2021"
publish = false

[dependencies]
clap = "=4.6.7"
nix = { version = "=0.31.3", features = ["fs", "process", "signal"] }
