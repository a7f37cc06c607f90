[package]
name = "shape_decode"
version = "0.1.0"
edition = "2021"
publish = false

[dependencies]
anyhow = "=1.0.104"
edgedb-derive = "=0.5.2"
edgedb-protocol = "=0.6.1"
edgedb-tokio = "=0.5.1"
fastrand = "=2.5.0"
serde = { version = "=1.0.229", features = ["derive"] }
serde_json = "=1.0.151"
tokio = { version = "=1.53.2", features = ["macros", "rt-multi-thread"] }
uuid = { version = "=1.27.0", features = ["serde"] }
