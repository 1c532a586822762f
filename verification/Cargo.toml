[package]
name = "release_tasks"
version = "0.1.0"
edition = "2021"
publish = false

[dependencies]
failure = "0.1"
json = "0.11"
semver = "0.9"
toml_edit = "0.1"
