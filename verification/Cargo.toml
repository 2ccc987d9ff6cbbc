[package]
name = "script"
version = "0.1.0"
edition = "2021"
publish = false

[dependencies]
clap = "=4.5.61"
libc = "=0.2.190"
nix = { version = "=0.29.0", features = ["fs", "ioctl", "process", "signal", "term"] }
