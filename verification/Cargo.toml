[package]
name = "yukino"
version = "0.1.0"
edition = "2021"
publish = false

[dependencies]
heck = "0.3"
time = "0.3"
rust_decimal = "1"
serde_json = "1"
thiserror = "1"
sqlx = { version = "0.7", default-features = false, features = ["mysql", "time", "rust_decimal", "json"] }
syn = { version = "1", features = ["full", "extra-traits"] }
quote = "1"
proc-macro2 = "1"
