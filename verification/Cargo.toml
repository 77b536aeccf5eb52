[package]
name = "ferre_pos"
version = "0.1.0"
edition = "2021"
publish = false

[dependencies]
bcrypt = "0.15"
serde = { version = "1", features = ["derive"] }
serde_json = "1"
rusqlite = { version = "0.31", features = ["bundled"] }
r2d2 = "0.8"
r2d2_sqlite = "0.24"
csv = "1"
