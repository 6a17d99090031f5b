[package]
name = "lr35902"
version = "0.1.0"
edition = "2021"
publish = false
