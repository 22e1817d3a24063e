[package]
name = "kilomon"
version = "0.1.0"
edition = "2021"
publish = false

[dependencies]
anyhow = "1"
crossterm = "0.27"
ratatui = "0.26"
sysinfo = "0.30"
tokio = { version = "1", features = ["macros", "rt-multi-thread"] }
