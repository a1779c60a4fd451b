[package]
name = "wasi_libc_trampoline_bindgen"
version = "0.1.0"
edition = "2021"
publish = false

[dependencies]
heck = "*"
witx = "*"
