[package]
name = "xr3wm"
version = "0.1.0"
edition = "2021"
publish = false

[dependencies]
libc = "=0.2.191"
log = "=0.4.34"
x11-dl = "=2.21.0"
xcb = { version = "0.9", features = ["xkb"] }
