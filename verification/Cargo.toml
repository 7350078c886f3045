[package]
name = "sitegen"
version = "0.1.0"
edition = "2021"
publish = false

[dependencies]
pulldown-cmark = "0.8"
minify = "*"
tera = "1"
glob = "0.3"
serde = { version = "1", features = ["derive"] }
