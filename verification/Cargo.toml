[package]
name = "plugin_validator"
version = "0.1.0"
edition = "2021"
publish = false

[dependencies]
tes3 = "*"
clap = "*"
