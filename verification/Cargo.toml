[package]
name = "luau_lifter"
version = "0.1.0"
edition = "2021"
publish = false

[dependencies]
binaryninja = "*"
num_enum = "*"
once_cell = "*"
