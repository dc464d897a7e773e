[package]
name = "ffav"
version = "0.1.0"
edition = "2021"
publish = false

[dependencies]
num-rational = { version = "0.4", default-features = false }
image = { version = "*", default-features = false }
thiserror = "1"
