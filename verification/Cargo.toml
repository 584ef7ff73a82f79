[package]
name = "rust_faust"
version = "0.1.0"
edition = "2021"
publish = false

[dependencies]
heck = "*"
triple_buffer = "*"
prettyplease = "*"
proc-macro2 = "*"
quote = "*"
serde = { version = "*", features = ["derive"] }
serde_json = "*"
syn = { version = "*", features = ["full"] }
tempfile = "*"
