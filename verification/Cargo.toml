[package]
name = "cassowary_session"
version = "0.1.0"
edition = "2021"
publish = false

[dependencies]
casuarius = "*"
lazy_static = "1"
