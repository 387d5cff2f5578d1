[package]
name = "tinytickets_backend"
version = "0.1.0"
edition = "2021"
publish = false

[dependencies]
axum = "0.8"
chrono = { version = "0.4", features = ["serde"] }
deadpool-diesel = { version = "0.6", features = ["sqlite"] }
diesel = { version = "2.2", features = ["sqlite", "chrono", "returning_clauses_for_sqlite_3_35"] }
diesel_migrations = "2.2"
handlebars = { version = "6", features = ["dir_source"] }
http = "1"
image = { version = "0.25", default-features = false, features = ["jpeg", "png"] }
lettre = "0.11"
rand = "0.8"
serde = { version = "1", features = ["derive"] }
serde_json = "1"
serde_trim = "1"
tokio = { version = "1", features = ["full"] }
tokio-util = { version = "0.7", features = ["io"] }
tower-http = { version = "0.6", features = ["cors", "fs"] }
tracing = "0.1"
tracing-subscriber = { version = "0.3", features = ["env-filter"] }
