[package]
name = "indexer-for-explorer"
version = "0.1.0"
edition = "2021"
publish = false

[dependencies]
anyhow = "=1.0.104"
aws-credential-types = "=1.3.1"
aws-types = "=1.7.0"
clap = { version = "=3.2.25", features = ["derive", "env"] }
http = "=0.2.12"
tracing = "=0.1.44"
tracing-subscriber = { version = "=0.3.23", features = ["env-filter"] }
