[package]
name = "gpg_core"
version = "0.1.0"
edition = "2021"
publish = false

[dependencies]
chrono = "=0.4.45"
hostname = "=0.4.2"
libc = "*"
