[package]
name = "query_macros"
version = "0.1.0"
edition = "2021"
publish = false

[dependencies]
futures-core = "=0.3.34"
proc-macro2 = { version = "=1.0.107", default-features = false }
serde_json = { version = "=1.0.154", features = ["preserve_order"] }
syn = { version = "=3.0.9", default-features = false, features = ["full", "parsing"] }
url = "=2.5.8"
