[package]
name = "neurocar"
version = "0.1.0"
edition = "2021"
publish = false

[dependencies]
macroquad = "*"
rapier2d = "*"
