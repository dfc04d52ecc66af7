[package]
name = "storekeeper"
version = "0.1.0"
edition = "2021"
publish = false

[dependencies]
chrono = "=0.4.45"
jiff = "=0.2.43"
md-5 = "=0.10.6"
rand = "=0.9.5"
serde = { version = "=1.0.229", features = ["derive"] }
serde_json = "=1.0.154"
toml = "=0.8.23"
icu_plurals = "=2.4.0"
icu_locale = "=2.4.0"
icu_experimental = "*"
icu_datetime = "2"
icu_time = "2"
icu_calendar = "2"
sys-locale = "*"
dirs = "=6.0.0"
reqwest = { version = "=0.12.28", default-features = false, features = ["json"] }
tokio = { version = "=1.54.1", features = ["rt", "time", "sync", "macros"] }
