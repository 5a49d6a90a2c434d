[package]
name = "rusty_boy"
version = "0.1.0"
edition = "2021"
publish = false

[dependencies]
gameboy-rom = "=0.4.1"
clap = "=2.34.0"
nom = "3"
