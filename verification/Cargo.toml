[package]
name = "ort"
version = "0.1.0"
edition = "2021"
publish = false

[dependencies]
half = "2"
ndarray = "0.15"
ort-sys = { version = "=2.0.0-alpha.4", default-features = false, features = ["load-dynamic"] }
