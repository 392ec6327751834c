[package]
name = "font_values"
version = "0.1.0"
edition = "2021"
publish = false

[dependencies]
app_units = "0.7"
serde = { version = "1", features = ["derive"] }
string_cache = "0.8"
url = { version = "2", features = ["serde"] }
