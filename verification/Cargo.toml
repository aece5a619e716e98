[package]
name = "vikunja_tui"
version = "0.1.0"
edition = "2021"
publish = false

[dependencies]
ansi-parser = "0.9"
chrono = { version = "0.4", default-features = false, features = ["std"] }
crossterm = "0.28"
dirs = "5"
html2text = "0.12"
ratatui = "0.29"
regex = "1"
reqwest = { version = "0.12", default-features = false, features = ["json", "rustls-tls"] }
serde = { version = "1", features = ["derive"] }
serde_json = "1"
thiserror = "1"
tokio = { version = "1", features = ["macros", "rt-multi-thread"] }
toml = "0.8"
