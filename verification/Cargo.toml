[package]
name = "book_indexer"
version = "0.1.0"
edition = "2021"
publish = false

[dependencies]
epub = "*"
html2text = "*"
serde = { version = "*", features = ["derive"] }
serde_json = "*"
