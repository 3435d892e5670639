[package]
name = "posixmq"
version = "0.1.0"
edition = "2021"
publish = false

[dependencies]
nix = "=0.24.3"
libc = "=0.2.190"
