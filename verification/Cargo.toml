[package]
name = "wiki-tui"
version = "0.1.0"
edition = "2021"
publish = false

[dependencies]
anyhow = "1.0"
cursive = { version = "*", default-features = false, features = ["crossterm-backend"] }
lazy_static = "1.4"
log = "0.4"
panic-message = "*"
serde_json = "1.0"
