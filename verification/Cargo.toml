[package]
name = "authz_engine"
version = "0.1.0"
edition = "2021"
publish = false

[dependencies]
actix-web = "4"
actix-utils = "3"
async-trait = "0.1"
futures-util = "0.3"
diesel = { version = "2", features = ["postgres", "r2d2", "chrono", "uuid"] }
chrono = { version = "0.4", features = ["serde"] }
serde = { version = "1", features = ["derive"] }
uuid = { version = "1", features = ["serde", "v4"] }
