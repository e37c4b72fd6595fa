[package]
name = "signal-orchestrate"
version = "0.17.0"
edition = "2021"
publish = false

[dependencies]
rkyv = "0.8"
