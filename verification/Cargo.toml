[package]
name = "geoenrich"
version = "0.1.0"
edition = "2021"
publish = false

[dependencies]
csv = "*"
futures = "*"
google_maps = "*"
serde = { version = "*", features = ["derive"] }
thiserror = "*"
tokio = { version = "*", features = ["macros", "rt-multi-thread", "sync"] }
