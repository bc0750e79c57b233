[package]
name = "yaml_editor"
version = "0.1.0"
edition = "2021"
publish = false

[dependencies]
serde_json = "1"
serde_yaml = "0.9"
clap = { version = "4", features = ["derive"] }
edit = "0.1"
tempfile = "3"
thiserror = "1"
