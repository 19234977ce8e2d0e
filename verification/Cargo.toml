[package]
name = "waxy"
version = "0.1.0"
edition = "2021"
publish = false

[dependencies]
taffy = "0.9"
