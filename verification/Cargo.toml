[package]
name = "mytypeless"
version = "0.1.0"
edition = "2021"
publish = false

[dependencies]
serde = { version = "1", features = ["derive"] }
serde_json = "1"
base64 = "=0.22.1"
anyhow = "1"
chrono = { version = "0.4", default-features = false, features = ["clock"] }
async-trait = "0.1"
tracing = "0.1"
tokio = { version = "1", features = ["rt", "macros", "time"] }
rusqlite = { version = "0.32", features = ["bundled"] }
reqwest = { version = "0.12", default-features = false, features = ["json"] }
arboard = { version = "3", default-features = false }
enigo = "0.2"
rodio = { version = "0.19", default-features = false }
