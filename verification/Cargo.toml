[package]
name = "clipboard_qr"
version = "0.1.0"
edition = "2021"
publish = false

[dependencies]
qrcode = "0.13"
image = "0.24"
bardecoder = "0.5"
arboard = "*"
x11rb = "*"
