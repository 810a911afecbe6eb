[package]
name = "get621"
version = "0.1.0"
edition = "2021"
publish = false

[dependencies]
chrono = "0.4"
urlencoding = "2"
serde = { version = "1", features = ["derive"] }
serde_json = "1"
reqwest = { version = "0.12", default-features = false, features = ["json", "multipart"] }
tokio = { version = "1", features = ["macros", "rt-multi-thread"] }
futures = "0.3"
glob = "0.3"
scraper = "0.23"
mime_guess = "2"
clap = "2"
lazy_static = "1"
