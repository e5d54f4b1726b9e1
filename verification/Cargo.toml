[package]
name = "fe"
version = "0.1.0"
edition = "2021"
publish = false

[dependencies]
clap = "2"
glob = "0.3"
regex = "1"
term-painter = "*"
