[package]
name = "saves_sync"
version = "0.1.0"
edition = "2021"
publish = false

[dependencies]
clap = { version = "=4.6.7", features = ["derive"] }
directories = "=6.0.0"
git2 = { version = "=0.21.0", features = ["ssh"] }
serde = { version = "=1.0.229", features = ["derive"] }
toml = "=1.1.8"
