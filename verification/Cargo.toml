[package]
name = "m64"
version = "0.1.0"
edition = "2021"
publish = false

[dependencies]
byteorder = "1"
serde_json = "1"
thiserror = "1"
cpal = "0.13"
dasp = "0.11"
