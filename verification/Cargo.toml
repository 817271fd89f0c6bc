[package]
name = "mlflow"
version = "0.1.0"
edition = "2021"
publish = false

[dependencies]
anyhow = "1"
serde_json = { version = "1", features = ["preserve_order"] }
serde_qs = "*"
thiserror = "1"
ureq = { version = "1", default-features = false }
