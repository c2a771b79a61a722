[package]
name = "ln8000_kmdf"
version = "0.3.1"
edition = "2021"
publish = false

[dependencies]
wdk = "0.4"
wdk-sys = "0.5"
