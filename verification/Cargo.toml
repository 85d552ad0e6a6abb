[package]
name = "best_clips"
version = "0.1.0"
edition = "2021"
publish = false

[dependencies]
argon2 = "*"
jwt-simple = { version = "*", default-features = false, features = ["pure-rust"] }
serde = { version = "*", features = ["derive"] }
serde_qs = "*"
toml = "*"
rouille = "*"
rusqlite = { version = "*", features = ["bundled"] }
reqwest = { version = "*", default-features = false, features = ["blocking"] }
