[package]
name = "nanocld"
version = "0.1.0"
edition = "2021"
publish = false

[dependencies]
url = "=2.5.8"
mustache = "=0.9.0"
serde = { version = "=1.0.229", features = ["derive"] }
serde_json = "=1.0.154"
serde_yaml = "=0.9.34"
log = "=0.4.35"
futures = "=0.3.34"
bollard = "=0.13.0"
ntex = { version = "0.7", features = ["tokio"] }
diesel = { version = "=2.3.14", features = ["postgres", "serde_json", "r2d2"] }
