[package]
name = "voyageai"
version = "0.1.0"
edition = "2021"
publish = false

[dependencies]
clap = { version = "4", features = ["derive"] }
futures = "0.3"
log = "0.4"
pulldown-cmark = { version = "0.9", default-features = false }
quote = "1"
reqwest = { version = "0.12", features = ["json"] }
serde = { version = "1", features = ["derive"] }
serde_json = "1"
syn = { version = "2", features = ["full", "extra-traits"] }
tokio = { version = "1", features = ["full"] }
tokio-stream = "0.1"
