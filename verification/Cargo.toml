[package]
name = "beeline"
version = "0.1.0"
edition = "2021"
publish = false

[dependencies]
anyhow = "1"
clap = { version = "4", features = ["derive"] }
clap_complete = "4"
colored = "2"
confy = "0.6"
crossterm = "0.28"
ratatui = "0.29"
reqwest = { version = "0.12", default-features = false, features = ["json"] }
rmcp = "*"
schemars = "*"
serde = { version = "1", features = ["derive"] }
serde_json = "1"
tempfile = "3"
thiserror = "1"
time = { version = "0.3", features = ["formatting", "parsing", "macros", "local-offset", "serde"] }
tokio = { version = "1", features = ["rt-multi-thread", "macros", "io-std"] }
unicode-width = "0.2"
