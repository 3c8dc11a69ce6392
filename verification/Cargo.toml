[package]
name = "pollsync"
version = "0.1.0"
edition = "2021"
publish = false

[dependencies]
atomic = "0.5"
futures-task = "0.3"
static_assertions = "1"

[dev-dependencies]
futures-test = "0.3"
