[package]
name = "libps1"
version = "0.1.0"
edition = "2021"
publish = false

[dependencies]
ansi_term = "*"
git2 = { version = "*", default-features = false }
tico = "*"
libc = "*"
