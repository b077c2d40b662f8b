[package]
name = "schani_import"
version = "0.1.0"
edition = "2021"
publish = false

[dependencies]
serde_json = "1"
serde_urlencoded = "0.7"
serde = { version = "1", features = ["derive"] }
amq-protocol = "0.23"
diesel = { version = "1.1", features = ["postgres"] }
dotenv = "0.10"
fern = "0.5"
futures = "0.1"
gotham = "0.2"
gotham_derive = "0.2"
gotham_middleware_diesel = "0.1"
hyper = "0.11"
lapin-futures = "0.11"
log = "0.4"
mime = "0.3"
resolve = "0.1"
tokio-core = "0.1"
