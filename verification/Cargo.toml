[package]
name = "zsh-module"
version = "0.1.0"
edition = "2021"
publish = false

[dependencies]
parking_lot = "=0.12.5"
zsh-sys = "=0.1.1"
