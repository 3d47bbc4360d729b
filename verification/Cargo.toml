[package]
name = "graphviz_dot_builder"
version = "0.1.0"
edition = "2021"
publish = false

[dependencies]
strum_macros = "*"
