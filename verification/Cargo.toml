[package]
name = "log_explorer"
version = "0.1.0"
edition = "2021"
publish = false

[dependencies]
anyhow = "*"
arboard = { version = "*", default-features = false }
aws-config = { version = "*", default-features = false }
crossterm = "*"
opensearch = { version = "*", default-features = false, features = ["aws-auth"] }
ratatui = "*"
serde = { version = "*", features = ["derive"] }
serde_json = "*"
tokio = { version = "*", features = ["macros", "rt-multi-thread"] }
url = "*"
