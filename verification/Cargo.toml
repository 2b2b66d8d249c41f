[package]
name = "lf_normalize"
version = "0.1.0"
edition = "2021"
publish = false

[dependencies]
palc = "*"
rayon = "*"
walkdir = "*"
