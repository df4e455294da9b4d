[package]
name = "rts_game"
version = "0.1.0"
edition = "2021"
publish = false

[dependencies]
bevy = { version = "0.15", default-features = false }
pathfinding = "4"
rand = "0.9"
walkdir = "2"
