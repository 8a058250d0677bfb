[package]
name = "twill"
version = "0.1.0"
edition = "2021"
publish = false

[dependencies]
ammonia = "*"
cssparser = "*"
fsrs = { version = "*", default-features = false }
image = { version = "*", default-features = false, features = ["png", "jpeg", "gif", "webp"] }
rusqlite = { version = "*", features = ["bundled"] }
rusqlite_migration = "*"
serde = { version = "*", features = ["derive"] }
serde_json = "*"
sha2 = "*"
thiserror = "*"
uuid = { version = "*", features = ["v7"] }
