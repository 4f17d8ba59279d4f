[package]
name = "minion_grid"
version = "0.1.0"
edition = "2021"
publish = false

[dependencies]
cli-table = "*"
