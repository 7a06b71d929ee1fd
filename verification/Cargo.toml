[package]
name = "tobi"
version = "1.0.0"
edition = "2021"
publish = false

[dependencies]
chrono = "0.4"
colored = "2"
fs_extra = "1"
home = "0.5"
humansize = "2"
ratatui = "0.29"
rusqlite = "0.32"
serde = { version = "1", features = ["derive"] }
serde_json = "1"
