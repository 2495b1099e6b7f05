[package]
name = "script_bindings"
version = "0.1.0"
edition = "2021"
publish = false

[dependencies]
mlua-extras = { version = "=12.0.0", features = ["lua54", "vendored"] }
