[package]
name = "ftdi_library"
version = "0.1.0"
edition = "2021"
publish = false

[dependencies]
libusb-sys = "*"
libc = "*"
log = "*"
linuxver = "*"
