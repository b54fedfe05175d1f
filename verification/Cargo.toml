[package]
name = "inventory_core"
version = "0.1.0"
edition = "2021"
publish = false

[dependencies]
neo4rs = "*"
tokio = { version = "*", features = ["macros", "rt-multi-thread"] }
