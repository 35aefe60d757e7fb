[package]
name = "deadlock_proof_mutex"
version = "0.1.0"
edition = "2021"
publish = false

[dependencies]
thread-local-object = "=0.1.0"

[dev-dependencies]
crossbeam-utils = "=0.8.23"
