[package]
name = "image_ndarray"
version = "0.1.0"
edition = "2021"
publish = false

[dependencies]
image = { version = "*", default-features = false }
ndarray = "*"
num-traits = "*"
thiserror-no-std = "*"
