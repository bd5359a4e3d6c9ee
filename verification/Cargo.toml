[package]
name = "orb"
version = "0.1.0"
edition = "2021"
publish = false

[dependencies]
clap = { version = "=4.6.7", features = ["derive"] }
csv = "=1.4.0"
serde = "=1.0.229"
serde_derive = "=1.0.229"
serde_json = "=1.0.154"
tokio = { version = "=1.54.1", features = ["macros", "rt-multi-thread"] }
zen-engine = "<0.30"
zen-expression = "<0.30"
