[package]
name = "lockstate"
version = "0.1.0"
edition = "2021"
publish = false

[dependencies]
dioxus-core = "0.3"
async-std = "1"
