[package]
name = "sheetstream"
version = "0.1.0"
edition = "2021"
publish = false

[dependencies]
atoi_simd = "*"
quick-xml = "*"
