[package]
name = "kuri_uninstaller"
version = "0.1.0"
edition = "2021"
publish = false

[dependencies]
chrono = "*"
dirs = "*"
is_elevated = "*"
trash = "*"
walkdir = "*"
winreg = "*"
