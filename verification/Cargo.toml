[package]
name = "exmap"
version = "0.1.0"
edition = "2021"
publish = false

[dependencies]
rustix = { version = "0.38", features = ["fs", "mm"] }
sc = "0.2"
thiserror = "1"
