[package]
name = "dbt_jinja_parser"
version = "0.1.0"
edition = "2021"
publish = false

[dependencies]
fancy-regex = "*"
rowan = "*"
serde = { version = "1", features = ["derive"] }
serde_yaml = "*"
walkdir = "*"
tokio = { version = "1", features = ["full"] }
tower-lsp = "*"
dashmap = "*"
tracing = "*"
tracing-subscriber = "*"
futures = "*"
