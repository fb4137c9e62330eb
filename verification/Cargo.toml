[package]
name = "isixhosa"
version = "0.1.0"
edition = "2021"
publish = false

[dependencies]
num_enum = "*"
serde = { version = "*", features = ["derive"] }
serde_repr = "*"
rusqlite = { version = "*", features = ["bundled"] }
r2d2 = "*"
r2d2_sqlite = "*"
tokio = { version = "1", features = ["rt-multi-thread"] }
warp = "0.3"
