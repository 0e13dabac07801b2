[package]
name = "x86_bringup"
version = "0.1.0"
edition = "2021"
publish = false

[dependencies]
x86 = "*"
log = "*"
