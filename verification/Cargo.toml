[package]
name = "ardoise"
version = "1.0.0"
edition = "2021"
publish = false

[dependencies]
rayon = "1"
captrs = "*"
x11cap = "*"
clap = "2"
dlopen = "0.1"
dlopen_derive = "0.1"
custom_error = "1"
