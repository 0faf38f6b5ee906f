[package]
name = "operation_center"
version = "0.1.0"
edition = "2021"
publish = false

[dependencies]
actix-web = { version = "4", default-features = false, features = ["macros"] }
actix-files = "0.6"
async-trait = "0.1"
chrono = { version = "0.4", features = ["serde"] }
config = { version = "0.15", default-features = false, features = ["toml"] }
futures-util = "0.3"
hex = "0.4"
indexmap = { version = "2", features = ["serde"] }
mime = "0.3"
mime_guess = "2"
once_cell = "1"
rust-embed = "8"
sea-orm = { version = "1", default-features = false, features = ["macros", "with-chrono", "with-json", "sqlx-sqlite", "runtime-tokio-rustls"] }
sea-orm-migration = { version = "1", default-features = false, features = ["sqlx-sqlite", "runtime-tokio-rustls"] }
serde = { version = "1", features = ["derive"] }
serde_json = "1"
serde_yaml = "0.9"
simple-log = "*"
sqlx = { version = "0.8", default-features = false }
tokio = { version = "1", features = ["macros", "rt-multi-thread", "sync"] }
tokio-stream = "0.1"
tracing = "0.1"
utoipa = { version = "5", features = ["actix_extras"] }
walkdir = "2"
zip = { version = "9", default-features = false, features = ["deflate"] }
