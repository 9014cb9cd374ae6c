[package]
name = "mactux"
version = "0.1.0"
edition = "2021"
publish = false

[dependencies]
object = { version = "=0.36.7", default-features = false, features = ["read_core", "elf", "std", "unaligned"] }
bincode = "=2.0.1"
libc = "=0.2.191"
log = "=0.4.35"
rand = "=0.9.5"
arc-swap = "=1.9.3"
rustc-hash = "=2.1.3"
