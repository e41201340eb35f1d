[package]
name = "diskspace"
version = "0.1.0"
edition = "2021"
publish = false

[dependencies]
nix = { version = "*", features = ["fs"] }
widestring = "*"
rustler = "*"
