[package]
name = "rust_lsp_mcp"
version = "0.1.0"
edition = "2021"
publish = false

[dependencies]
serde = { version = "1", features = ["derive"] }
serde_json = "1"
lsp-server = "0.7"
lsp-types = "0.97"
rmcp = { version = "*", features = ["server", "macros", "transport-io"] }
rmcp-macros = "*"
schemars = "*"
tokio = { version = "1", features = ["macros", "rt", "rt-multi-thread", "io-std", "sync"] }
thiserror = "2"
