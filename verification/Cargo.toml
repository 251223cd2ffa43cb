[package]
name = "heck"
version = "0.5.0"
edition = "2021"
publish = false

[dependencies]
bitvec = "1"
regex = "1"
reqwest = { version = "0.12", features = ["blocking"] }
rustc-hash = "2"
