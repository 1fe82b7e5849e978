[package]
name = "transit_hub"
version = "0.1.0"
edition = "2021"
publish = false

[dependencies]
actix = "0.10"
actix-web = "3"
actix-web-actors = "3"
curl = "0.4"
geoutils = "0.4"
mongodb = "1"
quick-protobuf = "0.8"
rand = "0.8"
serde = { version = "1", features = ["derive"] }
serde_json = "1"
tempdir = "0.3"
tokio = { version = "0.2", features = ["stream"] }
uuid = { version = "0.8", features = ["v4"] }
yaml-rust = "0.4"
zip = "0.5"
