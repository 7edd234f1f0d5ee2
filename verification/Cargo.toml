[package]
name = "nyamedia_bot"
version = "0.1.0"
edition = "2021"
publish = false

[dependencies]
actix-rt = "=2.15.0"
actix-web = { version = "=4.18.1", default-features = false, features = ["macros"] }
chrono = "=0.4.45"
diesel = { version = "=2.3.14", features = ["sqlite"] }
diesel_migrations = "=2.3.2"
dotenvy = "=0.15.7"
dptree = "=0.3.0"
include_dir = "=0.7.4"
log = "=0.4.34"
pretty_env_logger = "=0.5.0"
regex = "=1.13.1"
reqwest = { version = "=0.11.27", features = ["json"] }
serde = { version = "=1.0.229", features = ["derive"] }
serde_json = "=1.0.154"
takecell = "=0.1.1"
teloxide = { version = "=0.12.2", features = ["macros"] }
tokio = { version = "=1.54.1", features = ["rt-multi-thread", "macros", "time"] }
toml = "=0.8.23"
