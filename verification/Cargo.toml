[package]
name = "envoy_locality"
version = "0.1.0"
edition = "2021"
publish = false

[dependencies]
serde = { version = "1", features = ["derive"] }
serde_json = "1"
actix-web = { version = "4", default-features = false, features = ["macros"] }
tokio = { version = "1", features = ["rt-multi-thread", "macros", "sync"] }
reqwest = { version = "0.12", default-features = false, features = ["blocking"] }
log = "0.4"
env_logger = { version = "0.11", default-features = false }
chrono = { version = "0.4", default-features = false, features = ["clock"] }
rand = "0.8"
structopt = "0.3"
