[package]
name = "wot_schema"
version = "0.1.0"
edition = "2021"
publish = false

[dependencies]
oxilangtag = "=0.1.6"
serde = { version = "=1.0.229", features = ["derive"] }
serde_json = "=1.0.154"
serde_repr = "=0.1.21"
serde_with = { version = "=3.24.0", default-features = false, features = ["macros"] }
