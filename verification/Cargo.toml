[package]
name = "remote_gateway"
version = "0.1.0"
edition = "2021"
rust-version = "1.95"
publish = false

[dependencies]
teloxide = { version = "=0.12.2", features = ["macros"] }
tokio = { version = "=1.53.2", features = ["macros", "rt-multi-thread", "fs", "process", "time"] }
dptree = "=0.3.0"
sqlite = "=0.37.4"
reqwest = { version = "=0.12.28", features = ["json"] }
serde = { version = "=1.0.229", features = ["derive"] }
serde_json = "=1.0.151"
dotenv = "=0.15.0"
pretty_env_logger = "=0.5.0"
log = "=0.4.34"
# Not called anywhere: teloxide pulls takecell in transitively, and its
# 0.1.2 release asks for a rustc newer than this crate's rust-version,
# so the line only holds the resolver at the release before it.
takecell = "=0.1.1"
