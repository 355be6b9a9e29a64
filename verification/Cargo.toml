[package]
name = "music_tui"
version = "0.1.0"
edition = "2021"
publish = false

[dependencies]
bytes = "=1.12.1"
termion = "=2.0.3"
