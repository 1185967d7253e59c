[package]
name = "postgres_special"
version = "0.1.0"
edition = "2021"
publish = false

[dependencies]
postgres-protocol = "=0.4.1"
