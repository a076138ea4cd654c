[package]
name = "sitewatch"
version = "0.1.0"
edition = "2021"
publish = false

[dependencies]
roxmltree = "*"
reqwest = { version = "*", features = ["json"] }
tokio = { version = "1", features = ["macros", "rt-multi-thread"] }
serde = { version = "1", features = ["derive"] }
clap = { version = "4", features = ["derive"] }
log = "0.4"
pretty_env_logger = "*"
