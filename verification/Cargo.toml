[package]
name = "ftx_derivatives"
version = "0.1.0"
edition = "2021"
publish = false

[dependencies]
chrono = { version = "*", features = ["serde"] }
futures = "*"
reqwest = { version = "*", default-features = false, features = ["json", "query"] }
rust_decimal = "*"
serde = { version = "*", features = ["derive"] }
serde_json = "*"
thiserror = "*"
