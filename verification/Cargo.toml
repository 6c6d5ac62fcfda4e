[package]
name = "seax_scheme"
version = "0.1.0"
edition = "2021"
publish = false

[dependencies]
seax_util = "=0.1.2"
log = "=0.4.34"
