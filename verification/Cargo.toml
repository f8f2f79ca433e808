[package]
name = "trash_path"
version = "0.1.0"
edition = "2021"
publish = false

[dependencies]
file-id = "=0.2.3"
