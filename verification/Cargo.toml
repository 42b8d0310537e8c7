[package]
name = "winrec"
version = "0.1.0"
edition = "2021"
publish = false

[dependencies]
gif = "=0.14.2"
image = "0.23"
clap = "2"
bytesize = "*"
device_query = "*"
textwidth = "*"
x11 = "*"
log = "*"
