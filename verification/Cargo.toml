[package]
name = "mojito"
version = "0.1.0"
edition = "2021"

[dependencies]
petgraph = "0.8"
