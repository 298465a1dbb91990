[package]
name = "midi-auto-crossfader"
version = "0.1.0"
edition = "2021"
publish = false

[dependencies]
midir = "*"
rdev = "*"
rosc = "*"
indicatif = "*"
