[package]
name = "reactive_service"
version = "0.1.0"
edition = "2021"
publish = false

[dependencies]
async-trait = "*"
postgres = "*"
r2d2 = "*"
r2d2_postgres = "*"
scylla = "*"
serde = { version = "*", features = ["derive"] }
serde_json = "*"
tokio = { version = "*", features = ["full"] }
tokio-postgres = "*"
