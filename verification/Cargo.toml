[package]
name = "code_analyzer"
version = "0.1.0"
edition = "2021"
publish = false

[dependencies]
tree-sitter = "*"
tree-sitter-rust = "*"
tree-sitter-javascript = "*"
tree-sitter-typescript = "*"
tree-sitter-python = "*"
tree-sitter-java = "*"
tree-sitter-c = "*"
tree-sitter-cpp = "*"
tree-sitter-go = "*"
chrono = "*"
clap = { version = "*", features = ["derive"] }
ignore = "*"
rayon = "*"
serde = { version = "*", features = ["derive"] }
serde_json = "*"
prettytable-rs = "*"
atty = "*"
