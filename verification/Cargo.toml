[package]
name = "ftwrap"
version = "0.1.0"
edition = "2021"
publish = false

[dependencies]
anyhow = "=1.0.104"
freetype = "=0.8.0"
log = "=0.4.34"
memmap2 = "=0.9.12"
rangeset = "=0.4.1"
