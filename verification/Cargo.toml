[package]
name = "excel_provider"
version = "0.1.0"
edition = "2021"
publish = false

[dependencies]
calamine = "=0.37.0"

[dev-dependencies]
zip = { version = "=9.1.0", default-features = false }
