[package]
name = "tallii_users"
version = "0.1.0"
edition = "2021"
publish = false

[dependencies]
actix-cors = "=0.2.0"
actix-rt = "=1.1.1"
actix-web = "=2.0.0"
actix-web-httpauth = "=0.4.2"
bcrypt = "=0.8.2"
# actix-http 1.0.1 subtracts the `Duration` of this release of chrono from the
# `Tm` of time 0.1; with a later chrono actix-web does not build.
chrono = "=0.4.19"
diesel = { version = "=1.4.8", features = ["postgres", "r2d2", "uuidv07"] }
env_logger = "=0.7.1"
failure = "=0.1.8"
jsonwebtoken = "=7.2.0"
log = "0.4"
serde = { version = "1", features = ["derive"] }
serde_json = "=1.0.154"
uuid = { version = "=0.8.2", features = ["serde", "v4"] }
validator = "=0.10.1"
