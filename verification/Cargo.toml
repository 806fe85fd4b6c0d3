[package]
name = "depicts_bot"
version = "0.1.0"
edition = "2021"
publish = false

[dependencies]
config = "*"
percent-encoding = "*"
reqwest = { version = "*", features = ["blocking"] }
serde_json = "*"
wikibase = "*"
