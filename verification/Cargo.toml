[package]
name = "untrusted_value_taint_checker"
version = "0.1.0"
edition = "2021"
publish = false

[dependencies]
petgraph = "0.6"
owo-colors = "4"
serde = { version = "1", features = ["derive"] }
serde_json = "1"
clap = { version = "4", features = ["derive"] }
semver = { version = "1", features = ["serde"] }
anyhow = "1"
graphviz-rust = "0.9"
tempfile = "3"
tracing = "0.1"
tracing-subscriber = { version = "0.3", features = ["env-filter"] }
