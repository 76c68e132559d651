[package]
name = "yarn_buildpack"
version = "0.1.0"
edition = "2021"
publish = false

[dependencies]
libcnb = "=0.29.3"
libherokubuildpack = "=0.29.3"
serde = { version = "=1.0.229", features = ["derive"] }
serde_json = "=1.0.154"
sha2 = "=0.10.9"
thiserror = "=1.0.69"
toml = "=0.8.23"
