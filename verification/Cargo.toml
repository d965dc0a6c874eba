[package]
name = "launchpad_mini_mk3"
version = "0.1.0"
edition = "2021"
publish = false

[dependencies]
midir = "*"
