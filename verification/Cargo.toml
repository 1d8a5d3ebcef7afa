[package]
name = "rogue_rs"
version = "0.1.0"
edition = "2021"

[dependencies]
tcod = "0.15"
