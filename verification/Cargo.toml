[package]
name = "framewatch"
version = "0.1.0"
edition = "2021"
publish = false

[dependencies]
pnet = "*"
chrono = "*"
prettytable-rs = "*"
termion = "*"
