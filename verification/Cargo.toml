[package]
name = "hecto"
version = "0.1.0"
edition = "2021"
publish = false

[dependencies]
crossterm = "=0.29.0"
unicode-segmentation = "=1.13.3"
unicode-width = "=0.1.12"
