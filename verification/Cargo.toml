[package]
name = "frenezulo"
version = "0.1.0"
edition = "2021"
publish = false

[dependencies]
lunatic = { version = "=0.12.1", features = ["msgpack_serializer"] }
submillisecond = { version = "=0.3.0", features = ["json"] }
multimap = "=0.8.3"
serde = { version = "=1.0.229", features = ["derive"] }
serde_bytes = "=0.11.19"
anyhow = "=1.0.104"
