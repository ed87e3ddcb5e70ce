[package]
name = "nbt_compress"
version = "0.1.0"
edition = "2021"
publish = false

[dependencies]
libdeflater = "1"
zopfli = "0.8"
