[package]
name = "sbi_susp"
version = "0.1.0"
edition = "2021"
publish = false

[dependencies]
sbi-spec = "*"
