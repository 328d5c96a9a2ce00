[package]
name = "lxid"
version = "0.1.0"
edition = "2021"
publish = false

[dependencies]
home = "*"
mlua = { version = "*", features = ["lua54", "vendored", "macros"] }
rdev = "*"
