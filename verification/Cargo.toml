[package]
name = "twisty_cube"
version = "0.1.0"
edition = "2021"
publish = false

[dependencies]
serde = { version = "=1.0.229", features = ["derive"] }
surrealdb = { version = "=1.4.2", default-features = false, features = ["kv-mem"] }
tokio = { version = "=1.54.1", features = ["macros", "rt-multi-thread"] }
