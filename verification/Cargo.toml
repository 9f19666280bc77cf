[package]
name = "serial_tester"
version = "0.1.0"
edition = "2021"
publish = false

[dependencies]
clap = { version = "4", features = ["derive"] }
colored = "*"
nix = { version = "*", features = ["ioctl"] }
serialport = { version = "4", default-features = false }
