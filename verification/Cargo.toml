[package]
name = "mapview"
version = "0.1.0"
edition = "2021"
publish = false

[dependencies]
libc = "0.2"
nix = { version = "0.26", features = ["fs", "mman", "feature"] }
once_cell = "1"
shm_open_anonymous = "*"
