[package]
name = "actix-axum"
version = "0.1.0"
edition = "2021"
publish = false

[dependencies]
actix-http = "3"
actix-server = "2"
actix-service = "2"
bytes = "1"
futures-util = "0.3"
http = "0.2"
http-body = "0.4"
parking_lot = "0.12"
pin-project-lite = "0.2"
sync_wrapper = "0.1"
tower-service = "0.3"
