[package]
name = "demo_server"
version = "0.1.0"
edition = "2021"
publish = false

[dependencies]
actix-web = { version = "=4.18.1", default-features = false, features = ["macros"] }
actix-ws = "=0.3.1"
chrono = { version = "=0.4.45", default-features = false, features = ["serde", "clock", "std"] }
dotenvy = "=0.15.7"
env_logger = "=0.11.11"
futures-util = "=0.3.34"
log = "=0.4.35"
sea-orm = { version = "=1.1.20", default-features = false, features = ["macros", "with-chrono", "with-json"] }
serde = { version = "=1.0.229", features = ["derive"] }
serde_json = "=1.0.154"
tracing = "=0.1.44"
tracing-subscriber = "=0.3.23"
