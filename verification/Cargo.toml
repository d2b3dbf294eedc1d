[package]
name = "mdbook-numbering"
version = "0.1.0"
edition = "2021"
publish = false

[dependencies]
anyhow = "=1.0.104"
mdbook-preprocessor = "=0.5.4"
pulldown-cmark = { version = "=0.13.5", default-features = false }
pulldown-cmark-to-cmark = "=22.0.3"
serde = { version = "=1.0.229", features = ["derive"] }
serde_json = "=1.0.154"

[dev-dependencies]
toml = "=1.1.8"
