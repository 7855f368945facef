[package]
name = "fastbootd"
version = "0.1.0"
edition = "2021"
publish = false

[dependencies]
anyhow = "*"
libc = "*"
libusb1-sys = "*"
nix = "*"
