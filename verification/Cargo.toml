[package]
name = "intel8080_emu"
version = "0.1.0"
edition = "2021"

[dependencies]
crossterm = "*"
