[package]
name = "music_minder"
version = "0.1.0"
edition = "2021"
publish = false

[dependencies]
rand = "=0.9.5"
dirs = "=7.0.0"
serde = { version = "=1.0.229", features = ["derive"] }
serde_json = "=1.0.154"
toml = "=1.1.8"
sha2 = "=0.10.9"
lofty = "=0.25.5"
anyhow = "=1.0.104"
thiserror = "=2.0.21"
chrono = { version = "0.4", default-features = false, features = ["clock", "std"] }
