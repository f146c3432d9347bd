[package]
name = "calc"
version = "1.0.1"
edition = "2021"
publish = false

[dependencies]
clap = "2.33"
