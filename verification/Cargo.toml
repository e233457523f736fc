[package]
name = "psp5d"
version = "0.1.0"
edition = "2021"
publish = false

[dependencies]
serde = { version = "1", features = ["derive"] }
serde_json = "1"
sha2 = "0.10"
hex = "0.4"
thiserror = "1"
clap = { version = "4", features = ["derive"] }
tree-sitter = "0.20"
tree-sitter-python = "0.20"
