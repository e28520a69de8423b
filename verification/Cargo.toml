[package]
name = "shuu"
version = "2.1.0"
edition = "2021"
publish = false

[dependencies]
crossterm = "*"
dirs = "*"
