[package]
name = "nyaterm"
version = "0.1.0"
edition = "2021"
publish = false

[dependencies]
unicode-normalization = "0.1"
unicode-segmentation = "1"
serde_json = "1"
