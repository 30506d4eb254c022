[package]
name = "ev3rt_kit"
version = "0.1.0"
edition = "2021"
publish = false

[dependencies]
ev3rt = "*"
flagset = "*"
futures-micro = "*"
pin-project-lite = "*"
