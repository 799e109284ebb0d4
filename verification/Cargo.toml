[package]
name = "rust_fullstack_todo"
version = "0.1.0"
edition = "2021"
publish = false

[dependencies]
actix-cors = "0.6"
actix-web = "4"
anyhow = "1"
async-trait = "0.1"
chrono = { version = "0.4", features = ["serde"] }
config = { version = "0.13", default-features = false, features = ["toml"] }
deadpool-postgres = { version = "0.10", features = ["serde"] }
env_logger = "0.10"
log = "0.4"
postgres-types = { version = "0.2", features = ["derive"] }
reqwest = { version = "0.11", default-features = false }
serde = { version = "1", features = ["derive"] }
serde_json = "1"
thiserror = "1"
tokio = { version = "1", features = ["macros", "rt-multi-thread"] }
tokio-pg-mapper = "0.2"
tokio-pg-mapper-derive = "0.2"
tokio-postgres = "0.7"
uuid = { version = "1", features = ["v4"] }
