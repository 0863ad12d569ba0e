[package]
name = "simple_comics_viewer"
version = "0.1.0"
edition = "2021"
publish = false

[dependencies]
rusqlite = "*"
