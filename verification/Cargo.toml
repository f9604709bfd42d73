[package]
name = "uring-rt"
version = "0.1.0"
edition = "2021"
publish = false

[dependencies]
slab = "0.4"
libc = "0.2"
io-uring = "0.7"
nix = { version = "0.29", features = ["event"] }
futures = "0.3"
socket2 = "0.5"
