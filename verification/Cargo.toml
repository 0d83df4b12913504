[package]
name = "vdesk"
version = "0.1.0"
edition = "2021"
publish = false

[dependencies]
crossbeam-channel = "*"
once_cell = "*"
com = "*"
