[package]
name = "zbuffer_game"
version = "0.1.0"
edition = "2021"
publish = false

[dependencies]
tcod = "*"
specs = "*"
shred-derive = "*"
