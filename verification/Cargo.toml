[package]
name = "nano_core"
version = "0.1.0"
edition = "2021"
publish = false

[dependencies]
x86_64 = { version = "0.15", default-features = false, features = ["instructions"] }
multiboot2 = "*"
log = "0.4"
