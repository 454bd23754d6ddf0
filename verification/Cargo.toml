[package]
name = "linter"
version = "0.1.0"
edition = "2021"
publish = false

[dependencies]
sha256 = { version = "*", default-features = false }
merge-yaml-hash = "*"
serde = { version = "*", features = ["derive"] }
serde_json = "*"
serde_yaml = "*"
anyhow = "*"
clap = { version = "*", features = ["derive"] }
simplelog = "*"
thiserror = "*"
trustfall = "*"
reqwest = { version = "*", default-features = false, features = ["blocking", "json"] }
hn_api = "*"
openapiv3 = "*"
