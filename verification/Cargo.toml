[package]
name = "graph_processing"
version = "0.1.0"
edition = "2021"
publish = false

[dependencies]
arc-swap = "1"
crossbeam-channel = "0.5"
nix = { version = "0.26", features = ["event"] }
