[package]
name = "genwunsym"
version = "0.1.0"
edition = "2021"
publish = false

[dependencies]
num = "0.2"
num-traits = "0.2"
rand = "0.6"
