[package]
name = "mejia"
version = "0.1.0"
edition = "2021"
publish = false

[dependencies]
clap = { version = "=4.6.7", features = ["derive"] }
tokio = { version = "=1.54.1", features = ["rt-multi-thread", "io-std", "macros", "sync"] }
tower-lsp = "=0.20.0"
