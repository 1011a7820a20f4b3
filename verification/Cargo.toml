[package]
name = "consensus_core"
version = "0.1.0"
edition = "2021"
publish = false

[dependencies]
nohash-hasher = "=0.2.0"
serde_json = "1"
jsonschema = { version = "*", default-features = false }
thiserror = "1"
tracing = "0.1"
async-trait = "0.1"
grovedb = { version = "*", default-features = false, features = ["minimal"] }
