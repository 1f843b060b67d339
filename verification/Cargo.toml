[package]
name = "sparql_client"
version = "0.1.0"
edition = "2021"
publish = false

[dependencies]
spargebra = "0.2"
new_string_template = "1"
regex = "1"
uuid = { version = "1", features = ["v4"] }
serde = { version = "1", features = ["derive"] }
serde_json = "1"
reqwest = { version = "0.11", default-features = false, features = ["json", "rustls-tls"] }
axum = "0.6"
chrono = "0.4"
time = { version = "0.3", features = ["macros"] }
tracing = "0.1"
tracing-subscriber = { version = "0.3", features = ["env-filter", "time"] }
