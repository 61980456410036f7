[package]
name = "pgwire_results"
version = "0.1.0"
edition = "2021"
publish = false

[dependencies]
bytes = "1"
futures = "0.3"
postgres-types = "0.2"
