[package]
name = "sea_query_driver"
version = "0.1.0"
edition = "2021"
publish = false

[dependencies]
sea-query = { version = "*", default-features = false, features = ["with-json", "with-chrono", "with-time", "with-uuid", "with-rust_decimal", "with-bigdecimal"] }
sqlx = { version = "*", default-features = false, features = ["sqlite", "chrono", "uuid", "json"] }
chrono = { version = "*", default-features = false, features = ["std", "clock"] }
time = "*"
uuid = "*"
serde_json = "*"
rust_decimal = "*"
bigdecimal = "*"

[dev-dependencies]
futures-executor = "*"
