[package]
name = "gameday"
version = "0.1.0"
edition = "2021"
publish = false

[dependencies]
futures = "*"
isahc = "*"
quick-xml = { version = "*", features = ["serialize"] }
rayon = "*"
serde = { version = "*", features = ["derive"] }
serde_json = "*"
serde-xml-rs = "*"
