[package]
name = "k210_lcd"
version = "0.1.0"
edition = "2021"
publish = false
