[package]
name = "article_parser"
version = "0.1.0"
edition = "2021"
publish = false

[dependencies]
chrono = "*"
htmlescape = "*"
scraper = "*"
serde = { version = "*", features = ["derive"] }
