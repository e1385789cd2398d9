[package]
name = "idc_launcher"
version = "0.1.0"
edition = "2021"
publish = false

[dependencies]
serde = { version = "=1.0.229", features = ["derive"] }
serde_json = "=1.0.154"
oauth2 = "=4.4.2"
chrono = { version = "=0.4.45", features = ["serde"] }
reqwest = { version = "=0.11.27", features = ["json", "multipart"] }
tokio = { version = "=1.54.1", features = ["sync", "rt", "macros"] }
dirs = "=5.0.1"
dotenv = "=0.15.0"
sqlx = { version = "=0.8.6", default-features = false, features = ["mysql", "runtime-tokio", "chrono"] }
portablemc = "*"
