[package]
name = "gphoto"
version = "0.1.0"
edition = "2021"
publish = false

[dependencies]
cstr_core = "*"
gphoto2-sys = "*"
libc = "*"
