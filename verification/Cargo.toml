[package]
name = "manga_tracker"
version = "0.1.0"
edition = "2021"
publish = false

[dependencies]
chrono = { version = "=0.4.45", features = ["serde"] }
chrono-tz = "=0.10.4"
fantoccini = "*"
governor = "*"
regex = "=1.13.1"
reqwest = { version = "*", features = ["json"] }
scraper = "=0.29.0"
serde = { version = "1", features = ["derive"] }
serde_json = "1"
serde-xml-rs = "*"
serenity = { version = "*", default-features = false, features = ["builder", "http", "model", "rustls_backend"] }
sqlx = { version = "*", default-features = false, features = ["postgres", "runtime-tokio", "chrono"] }
tokio = { version = "1", features = ["macros", "rt-multi-thread", "time"] }
xmlserde = "*"
xmlserde_derives = "*"
