[package]
name = "petunia_ui"
version = "0.1.0"
edition = "2021"
publish = false

[dependencies]
egui = "*"
glam = "*"
puffin = "*"
uuid = { version = "*", features = ["v4"] }
