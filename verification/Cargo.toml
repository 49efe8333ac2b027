[package]
name = "fxplorer"
version = "0.1.0"
edition = "2021"
publish = false

[dependencies]
clap = { version = "4", features = ["derive"] }
eframe = { version = "0.22", default-features = false, features = ["glow", "default_fonts"] }
open = "*"
simple-home-dir = "*"
walkdir = "2"
