[package]
name = "deepzoom"
version = "0.1.0"
edition = "2021"
publish = false

[dependencies]
astro-float = "=0.9.6"
dashu-float = "=0.6.2"
dashu-int = "=0.6.2"
glam = "=0.34.1"
encase = "=0.13.0"
