[package]
name = "salary_tray"
version = "0.1.0"
edition = "2021"
publish = false

[dependencies]
chrono = "=0.4.45"
serde = { version = "=1.0.229", features = ["derive"] }
serde_json = "=1.0.154"
fluent = "=0.16.1"
fluent-bundle = "=0.15.3"
fluent-syntax = "=0.11.1"
intl-memoizer = "=0.5.3"
unic-langid = "=0.9.6"
anyhow = "=1.0.104"
image = { version = "=0.25.10", default-features = false, features = ["png"] }
imageproc = { version = "=0.25.1", default-features = false }
ab_glyph = "=0.2.32"
