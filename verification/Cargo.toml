[package]
name = "mdbook-preprocessor-boilerplate"
version = "0.1.0"
edition = "2021"
publish = false

[dependencies]
anyhow = "=1.0.104"
clap = "=2.34.0"
mdbook = { version = "=0.4.48", default-features = false }
semver = "=1.0.28"
serde_json = "=1.0.154"
