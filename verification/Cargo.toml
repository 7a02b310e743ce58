[package]
name = "vt"
version = "0.1.0"
edition = "2021"
publish = false

[dependencies]
bitflags = "1.3"
nix = { version = "0.29", features = ["term", "ioctl"] }
