[package]
name = "trustify"
version = "0.1.0"
edition = "2021"
publish = false

[dependencies]
osv = "0.2"
serde_json = "1"
sea-orm-migration = { version = "1", default-features = false }
clap = { version = "4", features = ["derive"] }
anyhow = "1"
async-trait = "0.1"
