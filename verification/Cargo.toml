[package]
name = "sql_extraction"
version = "0.1.0"
edition = "2021"
publish = false

[dependencies]
proc-macro2 = { version = "1", features = ["span-locations"] }
syn = { version = "2", features = ["full"] }
serde = { version = "1", features = ["derive"] }
serde_json = "1"
wasm-bindgen = "0.2"
