[package]
name = "yang2"
version = "0.1.0"
edition = "2021"
publish = false

[dependencies]
libyang2-sys = "*"
cc = "*"
cmake = "*"
pkg-config = "*"
bindgen = "*"
