[package]
name = "ilock"
version = "0.1.0"
edition = "2021"
publish = false

[dependencies]
image = "0.23"
imageproc = "0.22"
rand = "0.7"
rusttype = "0.9"
x11 = { version = "2.18", features = ["xlib"] }
