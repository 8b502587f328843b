[package]
name = "tachyomancer"
version = "0.1.0"
edition = "2021"
publish = false

[dependencies]
sha = "1"
num-integer = "0.1"
getopts = "0.2"
iron = "0.6"
router = "0.6"
