[package]
name = "worker_sandbox"
version = "0.1.0"
edition = "2021"
publish = false

[dependencies]
deno_semver = "0.5"
deno_npm = "0.15"
tokio = { version = "1", features = ["sync", "rt", "macros"] }
anyhow = "1"
