[package]
name = "saturn_core"
version = "0.1.0"
edition = "2021"
publish = false

[dependencies]
arc-swap = "1"
png = "0.17"
minifb = { version = "0.27", default-features = false, features = ["x11"] }
