[package]
name = "twtar"
version = "0.1.0"
edition = "2021"
publish = false

[dependencies]
egzreader = "=2.0.4"
roaes = "=0.1.2"
tar = "=0.4.46"

[dev-dependencies]
flate2 = "=1.1.10"
