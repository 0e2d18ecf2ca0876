[package]
name = "kmsfb"
version = "0.1.0"
edition = "2021"
publish = false

[dependencies]
libc = "*"
memmap = "0.7"
