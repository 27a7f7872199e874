[package]
name = "rusty_daw_io"
version = "0.1.0"
edition = "2021"
publish = false

[dependencies]
jack = "=0.8.4"
log = "=0.4.34"
