[package]
name = "zip_structs"
version = "0.1.0"
edition = "2021"
publish = false

[dependencies]
byteorder = { version = "=1.5.0", default-features = false }
