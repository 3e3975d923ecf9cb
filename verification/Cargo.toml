[package]
name = "proxy_watch"
version = "0.1.0"
edition = "2021"
publish = false

[dependencies]
scraper = "*"
reqwest = { version = "*", default-features = false, features = ["json"] }
tokio = { version = "1", default-features = false, features = ["macros", "rt-multi-thread", "time", "sync"] }
clap = "*"
serde = { version = "1", features = ["derive"] }
eyre = "*"
tracing = "*"
tracing-subscriber = "*"
