[package]
name = "xml_conformance"
version = "0.1.0"
edition = "2021"
publish = false

[dependencies]
quick-xml = { version = "*", features = ["serialize"] }
serde = { version = "1", features = ["derive"] }
inquire = "*"
reqwest = "*"
tokio = { version = "1", features = ["macros", "rt-multi-thread"] }
zip = { version = "*", default-features = false, features = ["deflate"] }
