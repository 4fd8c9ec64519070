[package]
name = "hello_cairo_plugin"
version = "0.1.0"
edition = "2021"

[dependencies]
cairo-lang-parser = "*"
cairo-lang-syntax = "*"
cairo-lang-diagnostics = "*"
regex = "*"
