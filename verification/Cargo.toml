[package]
name = "nifa"
version = "0.1.0"
edition = "2021"
publish = false

[dependencies]
anyhow = "*"
clap = { version = "*", features = ["derive"] }
crossterm = "*"
hostname = "*"
humansize = "*"
netdev = "*"
os_info = "*"
ratatui = "*"
reqwest = { version = "*", default-features = false, features = ["json"] }
serde = { version = "*", features = ["derive"] }
serde_json = "*"
serde_yaml = "*"
termtree = "*"
tokio = { version = "*", features = ["macros", "rt-multi-thread"] }
tracing = "*"
