[package]
name = "http_dispatch"
version = "0.1.0"
edition = "2021"
publish = false

[dependencies]
chrono = "0.4"
mio = { version = "1", features = ["net", "os-poll"] }
regex = "1"
tera = "1"
toml = "0.8"
serde = { version = "1", features = ["derive"] }
