[package]
name = "codablellm"
version = "0.1.0"
edition = "2021"
publish = false

[dependencies]
tree-sitter = "0.25"
tree-sitter-c = "*"
tree-sitter-cpp = "*"
tree-sitter-python = "*"
tree-sitter-javascript = "*"
tree-sitter-typescript = "*"
tree-sitter-go = "*"
tree-sitter-rust = "*"
tree-sitter-java = "*"
tree-sitter-c-sharp = "*"
polars = { version = "*", default-features = false }
serde = { version = "1", features = ["derive"] }
serde_json = "1"
toml = "*"
clap = { version = "4", features = ["derive"] }
glob = "0.3"
tokio = { version = "1", features = ["rt-multi-thread", "macros", "fs"] }
tracing = "0.1"
tracing-subscriber = { version = "0.3", features = ["env-filter"] }
tracing-appender = "0.2"
indicatif = { version = "*", features = ["rayon"] }
rayon = "1"
directories = "*"
inquire = "*"
tempfile = "3"
flate2 = "1"
tar = "0.4"
reqwest = { version = "*", default-features = false, features = ["blocking", "rustls-tls"] }
bollard = "*"
futures-util = "0.3"
