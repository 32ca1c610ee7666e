[package]
name = "adventure_generator"
version = "0.1.0"
edition = "2021"
publish = false

[dependencies]
rand = "0.8"
color-eyre = "0.6"
crossterm = "0.28"
ratatui = "0.29"
reqwest = { version = "0.12", default-features = false, features = ["json"] }
serde = { version = "1", features = ["derive"] }
serde_json = "1"
tokio = { version = "1", features = ["macros", "rt-multi-thread", "time"] }
