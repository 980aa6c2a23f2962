[package]
name = "prisma_core"
version = "0.1.0"
edition = "2021"
publish = false

[dependencies]
chrono = "=0.4.45"
graphql-parser = "=0.4.1"
native-tls = "=0.2.18"
postgres = { version = "=0.19.14", features = ["with-uuid-1", "with-chrono-0_4", "with-serde_json-1"] }
postgres-native-tls = "=0.5.3"
r2d2 = "=0.8.10"
r2d2_postgres = "=0.18.2"
serde = { version = "=1.0.229", features = ["derive"] }
serde_json = "=1.0.151"
uuid = "=1.27.0"
