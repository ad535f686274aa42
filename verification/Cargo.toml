[package]
name = "editor_core"
version = "0.1.0"
edition = "2021"
publish = false

[dependencies]
unicode-segmentation = "1"
unicode-width = "0.1"
crossterm = "0.28"
log = "0.4"
simplelog = "0.12"
