[package]
name = "gencomp"
version = "0.1.0"
edition = "2021"
publish = false

[dependencies]
handlebars = "6"
rust-embed = "8"
serde = { version = "1", features = ["derive"] }
serde_json = "1"

[dev-dependencies]
tempfile = "3"
