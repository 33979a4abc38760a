[package]
name = "geiger_audit"
version = "0.1.0"
edition = "2021"
publish = false

[dependencies]
cargo-geiger-serde = "*"
colored = "2"
quote = "1"
syn = { version = "1", features = ["full", "visit"] }
