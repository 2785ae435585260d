[package]
name = "json_ops"
version = "0.1.0"
edition = "2021"
publish = false

[dependencies]
deno_core = "0.33"
futures = "0.3"
serde_derive = "1.0"
serde_json = { version = "1.0", features = ["preserve_order"] }
tokio = { version = "0.2", features = ["blocking", "rt-core"] }
