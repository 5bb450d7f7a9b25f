[package]
name = "md_export"
version = "0.1.0"
edition = "2021"
publish = false

[dependencies]
markdown2pdf = "*"
pandoc = "*"
