[package]
name = "gbif_scraper"
version = "0.1.0"
edition = "2021"
publish = false

[dependencies]
unidecode = "*"
infer = "*"
serde = { version = "*", features = ["derive"] }
serde_json = "*"
reqwest = { version = "*", default-features = false, features = ["blocking"] }
dirs = "*"
