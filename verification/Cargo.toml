[package]
name = "miden_node_core"
version = "0.1.0"
edition = "2021"
publish = false

[dependencies]
miden-protocol = "=0.15.3"
miden-standards = "=0.15.3"
