[package]
name = "object_writer"
version = "0.1.0"
edition = "2021"
publish = false

[dependencies]
bytes = "1"
futures = "0.3"
http = "0.2"
quick-xml = { version = "0.26", features = ["serialize"] }
serde = { version = "1", features = ["derive"] }
