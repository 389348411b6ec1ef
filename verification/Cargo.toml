[package]
name = "lyrtui"
version = "0.2.10"
edition = "2021"
publish = false

[dependencies]
anyhow = "1"
color-thief = "*"
crossterm = "*"
dirs = "*"
image = { version = "*", default-features = false, features = ["jpeg", "png", "gif", "webp"] }
ratatui = "*"
ratatui-image = "*"
reqwest = { version = "*", default-features = false, features = ["json"] }
serde = { version = "1", features = ["derive"] }
serde_json = "1"
tokio = { version = "1", features = ["full"] }
toml = "*"
