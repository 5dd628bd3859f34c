[package]
name = "hline"
version = "0.1.0"
edition = "2021"
publish = false

[dependencies]
grep = "*"
termion = "*"
clap = "2"
