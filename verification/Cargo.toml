[package]
name = "ecn_validation"
version = "0.1.0"
edition = "2021"
publish = false

[dependencies]
cssparser = "*"
