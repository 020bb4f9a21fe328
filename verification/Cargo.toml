[package]
name = "feedfix"
version = "0.1.0"
edition = "2021"
publish = false

[dependencies]
bytesize = "*"
chrono = "*"
chrono-tz = "*"
csv = "*"
gtfs-structures = { version = "*", default-features = false }
reqwest = { version = "*", default-features = false }
serde = { version = "*", features = ["derive"] }
serde_json = "*"
tokio = { version = "*", features = ["macros", "rt-multi-thread"] }
zip-extract = "*"
