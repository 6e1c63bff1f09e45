[package]
name = "follow_audit"
version = "0.1.0"
edition = "2021"
publish = false

[dependencies]
argh = "0.1"
color-eyre = "0.6"
dotenvy = "0.15"
envy = "0.4"
rand = "0.8"
reqwest = { version = "0.11", features = ["blocking", "json"] }
serde = { version = "1", features = ["derive"] }
serde_json = "1"
