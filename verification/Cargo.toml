[package]
name = "pyrefly_lsp"
version = "0.1.0"
edition = "2021"
publish = false

[dependencies]
anyhow = "1"
clap = { version = "4", features = ["derive"] }
lsp-server = "0.7"
lsp-types = "*"
serde_json = "1"
