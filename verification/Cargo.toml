[package]
name = "json_editor"
version = "0.1.0"
edition = "2021"
publish = false

[dependencies]
dark-light = "*"
