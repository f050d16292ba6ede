[package]
name = "felix_config"
version = "0.1.0"
edition = "2021"
publish = false

[dependencies]
dirs = "=7.0.0"
serde_yaml = "=0.9.34"
