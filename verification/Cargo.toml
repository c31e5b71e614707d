[package]
name = "polyhorn"
version = "0.1.0"
edition = "2021"
publish = false

[dependencies]
semver = "=1.0.28"
serde = { version = "=1.0.229", features = ["derive"] }
toml = "=1.1.8"
cargo-lock = "=11.1.0"
proc-macro2 = "=1.0.107"
quote = "=1.0.47"
inflections = "*"
