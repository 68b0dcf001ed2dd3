[package]
name = "actix_cbor"
version = "0.1.0"
edition = "2021"
publish = false

[dependencies]
serde = "1"
serde_cbor = "0.11"
actix-web = "3"
actix-http = "2"
futures-util = "0.3"
log = "0.4"
mime = "0.3"
