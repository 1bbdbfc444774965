[package]
name = "scrapurr"
version = "0.1.0"
edition = "2021"
publish = false

[dependencies]
url = "*"
chrono = "*"
tokio = { version = "*", features = ["macros", "rt-multi-thread", "signal", "time", "sync"] }
clap = { version = "*", features = ["derive"] }
serde = { version = "*", features = ["derive"] }
toml = "*"
directories = "*"
anyhow = "*"
vcsr = "*"
walkdir = "*"
