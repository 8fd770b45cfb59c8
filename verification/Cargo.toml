[package]
name = "booru_dl"
version = "0.1.0"
edition = "2021"
publish = false

[dependencies]
image = "*"
async-std = "*"
native-dialog = "*"
reqwest = { version = "*", default-features = false }
