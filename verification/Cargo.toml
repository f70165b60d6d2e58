[package]
name = "bsdiff_rust"
version = "0.1.0"
edition = "2021"
publish = false

[dependencies]
bsdiff = "*"
zstd = "*"
memmap2 = "*"
