[package]
name = "prezpack"
version = "0.1.0"
edition = "2021"
publish = false

[dependencies]
clap = { version = "*", features = ["derive"] }
jubako = "*"
libarx = "*"
libwaj = "*"
mime_guess = "*"
tempfile = "*"
walkdir = "*"
