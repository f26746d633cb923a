[package]
name = "hop_cli"
version = "0.3.4"
edition = "2021"
publish = false
