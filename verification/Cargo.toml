[package]
name = "ocpp_server"
version = "0.1.0"
edition = "2021"
publish = false

[dependencies]
actix = "=0.13.5"
actix-files = "=0.7.0"
actix-identity = "=0.9.0"
actix-web = { version = "=4.15.0", features = ["rustls-0_23"] }
actix-web-actors = "=4.3.1"
chrono = "=0.4.45"
dotenv = "=0.15.0"
http-auth-basic = "=0.3.7"
log = "=0.4.34"
rustls = "0.23"
rustls-pemfile = "2"
serde = { version = "=1.0.229", features = ["derive"] }
serde_json = "=1.0.151"
uuid = { version = "=1.27.0", features = ["v4"] }
yaml-rust = "=0.4.5"
