[package]
name = "print_jobs"
version = "0.1.0"
edition = "2021"
publish = false

[dependencies]
actix-web = { version = "*", default-features = false }
actix-rt = "*"
actix-web-prom = "*"
bb8 = "*"
bb8-postgres = "*"
env_logger = "*"
log = "*"
prometheus = "*"
reqwest = { version = "*", default-features = false, features = ["json"] }
serde = { version = "*", features = ["derive"] }
serde_json = "*"
tokio = { version = "*", features = ["rt", "sync", "time", "macros"] }
tokio-postgres = "*"
