[package]
name = "yrs_bindings"
version = "0.1.0"
edition = "2021"
publish = false

[dependencies]
yrs = { version = "=0.25.0", features = ["sync"] }
serde_json = "=1.0.154"
