[package]
name = "civlike"
version = "0.1.0"
edition = "2021"
publish = false

[dependencies]
rand = "=0.7.3"
amethyst = { version = "=0.15.3", default-features = false, features = ["renderer"] }
