[package]
name = "wati2wat"
version = "1.0.0"
edition = "2021"
publish = false

[dependencies]
regex = "1"
clap = "2"
colored = "2"
