[package]
name = "rut"
version = "0.1.0"
edition = "2021"
publish = false

[dependencies]
ropey = "1"
crossterm = "0.25"
tui = "0.19"
