[package]
name = "pathfinder"
version = "0.1.0"
edition = "2021"
publish = false

[dependencies]
fuzzy-matcher = "0.3"
zellij-tile = "*"
ansi_term = "0.12"
owo-colors = "*"
