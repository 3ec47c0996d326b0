[package]
name = "sticker_album"
version = "0.1.0"
edition = "2021"
publish = false

[dependencies]
rusqlite = "0.32"
eframe = { version = "0.29", default-features = false, features = ["default_fonts", "glow", "x11"] }
