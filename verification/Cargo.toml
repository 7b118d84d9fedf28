[package]
name = "rust2uml"
version = "0.1.0"
edition = "2021"
publish = false

[dependencies]
dot = "*"
urlencoding = "*"
syn = { version = "*", features = ["full"] }
quote = "*"
proc-macro2 = "*"
clap = { version = "*", features = ["derive"] }
walkdir = "*"
