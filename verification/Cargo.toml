[package]
name = "lander"
version = "0.1.0"
edition = "2021"
publish = false

[dependencies]
fastrand = "1"
lazy_static = "1"
noilib-simple = "*"
