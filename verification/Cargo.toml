[package]
name = "ft60x"
version = "0.1.0"
edition = "2021"
publish = false

[dependencies]
libc = "*"
libloading = "*"
once_cell = "*"
tempfile = "*"
thiserror = "*"
