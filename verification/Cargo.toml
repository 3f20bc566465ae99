[package]
name = "isaac-save-installer"
version = "0.1.0"
edition = "2021"
publish = false

[dependencies]
anyhow = "1"
camino = "1"
colored = "2"
dirs-next = "2"
rust-ini = "*"
sysinfo = "0.29"
text_io = "0.1"
whoami = "1"
winreg = "*"
