[package]
name = "vaulty_mail"
version = "0.1.0"
edition = "2021"
publish = false

[dependencies]
base64 = "=0.13.1"
bytes = "=1.12.1"
chashmap = "=2.2.2"
chrono = { version = "=0.4.45", default-features = false, features = ["clock", "std"] }
futures = "=0.3.34"
log = "=0.4.34"
reqwest = { version = "=0.11.27", default-features = false, features = ["blocking", "stream"] }
rmp-serde = "=1.3.1"
rouille = { version = "=3.6.2", default-features = false }
serde = { version = "=1.0.229", features = ["derive"] }
serde_json = "=1.0.154"
serde_urlencoded = "=0.7.1"
sqlx = { version = "=0.7.4", default-features = false, features = ["postgres", "runtime-tokio", "uuid", "chrono"] }
tokio = { version = "=1.54.1", features = ["rt-multi-thread", "macros", "sync", "time"] }
uuid = { version = "=1.29.0", features = ["serde", "v4"] }
warp = { version = "=0.3.7", default-features = false }
