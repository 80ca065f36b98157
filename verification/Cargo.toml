[package]
name = "natural_syntax_ls"
version = "0.1.0"
edition = "2021"
publish = false

[dependencies]
anyhow = "*"
drop_this = "*"
serde = { version = "*", features = ["derive"] }
tokio = { version = "*", features = ["full"] }
tokio_gen_server = "*"
tower-lsp = "*"
tracing = "*"
tracing-subscriber = { version = "*", features = ["env-filter"] }
