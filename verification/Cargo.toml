[package]
name = "dices_bot"
version = "0.1.0"
edition = "2021"
publish = false

[dependencies]
rand = "=0.8.8"
teloxide = { version = "=0.9.2", features = ["macros", "sqlite-storage", "auto-send"] }
dptree = "=0.2.1"
tokio = { version = "=1.54.1", features = ["rt-multi-thread", "macros"] }
log = "=0.4.34"
pretty_env_logger = "=0.4.0"
dotenv = "=0.15.0"
serde = { version = "=1.0.229", features = ["derive"] }
takecell = "=0.1.1"
