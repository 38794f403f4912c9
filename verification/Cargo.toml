[package]
name = "alvr_filesystem"
version = "0.1.0"
edition = "2021"
publish = false

[dependencies]
dirs = "*"
once_cell = "*"
