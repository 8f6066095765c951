[package]
name = "heimdallr"
version = "1.0.0"
edition = "2021"
publish = false

[dependencies]
actix = "=0.7.9"
actix-web = { version = "=0.7.19", features = ["ssl"] }
argonautica = "0.2"
chrono = "=0.4.45"
clap = "=2.34.0"
diesel = { version = "=1.4.8", features = ["postgres", "r2d2", "chrono", "uuidv07"] }
futures = "=0.1.31"
jsonwebtoken = { version = "=9.3.1", default-features = false }
openssl = "=0.10.81"
serde = { version = "=1.0.229", features = ["derive"] }
serde_json = { version = "=1.0.154", features = ["preserve_order"] }
uuid = { version = "=0.8.2", features = ["v4"] }
validator = "=0.8.0"
