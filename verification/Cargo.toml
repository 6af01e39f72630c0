[package]
name = "secure_loader"
version = "0.1.0"
edition = "2021"
publish = false

[dependencies]
aes-gcm = "0.10"
bsdiff = "*"
pyo3 = "*"
rfd = "*"
