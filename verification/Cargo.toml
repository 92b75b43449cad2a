[package]
name = "screenshare"
version = "0.1.0"
edition = "2021"
publish = false

[dependencies]
rand = "=0.10.3"
bytes = "=1.12.1"
futures = "=0.3.34"
