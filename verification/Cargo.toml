[package]
name = "igd"
version = "0.1.0"
edition = "2021"
publish = false

[dependencies]
xmltree = "=0.10.3"
rand = "=0.8.8"
