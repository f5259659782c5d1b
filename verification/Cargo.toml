[package]
name = "mecab_wrapper"
version = "0.1.0"
edition = "2021"
publish = false

[dependencies]
csv = "1"
libc = "0.2"
