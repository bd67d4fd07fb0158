[package]
name = "autosized_num"
version = "0.1.0"
edition = "2021"

[dependencies]
proc-macro2 = "*"
quote = "*"
syn = "*"
