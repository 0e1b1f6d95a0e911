[package]
name = "xplm"
version = "0.1.0"
edition = "2021"
publish = false

[dependencies]
xplm-sys = "=0.4.0"
libc = "=0.2.190"
