[package]
name = "analytics"
version = "0.1.0"
edition = "2021"
publish = false

[dependencies]
async-bb8-diesel = "0.2"
async-trait = "0.1"
bigdecimal = { version = "0.4", features = ["serde"] }
diesel = { version = "2", features = ["postgres", "time"] }
error-stack = "0.4"
reqwest = { version = "0.11", default-features = false }
serde = { version = "1", features = ["derive"] }
serde_json = "1"
time = { version = "0.3", features = ["formatting", "parsing", "serde-well-known"] }
utoipa = "4"
