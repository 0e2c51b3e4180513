[package]
name = "repobee_core"
version = "0.1.0"
edition = "2021"
publish = false

[dependencies]
anyhow = "*"
clap = { version = "*", features = ["derive"] }
directories = "*"
dirs = "*"
jsonschema = "*"
reqwest = { version = "*", default-features = false, features = ["blocking", "json", "rustls-tls"] }
schemars = "*"
serde = { version = "*", features = ["derive"] }
serde_json = "*"
serde_yaml = "*"
