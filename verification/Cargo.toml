[package]
name = "tubereng"
version = "0.1.0"
edition = "2021"
publish = false

[dependencies]
image = { version = "=0.24.9", default-features = false, features = ["png"] }
tree-sitter = "=0.20.10"
tree-sitter-wgsl = "=0.0.6"
ron = "=0.8.1"
serde = { version = "=1.0.229", features = ["derive"] }
include_dir = "=0.7.4"
