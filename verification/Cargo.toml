[package]
name = "fakeit_ext"
version = "0.1.0"
edition = "2021"
publish = false

[dependencies]
fakeit = "=1.4.1"
duckdb = { version = "=1.10506.0", default-features = false, features = ["vscalar", "loadable-extension"] }
duckdb-loadable-macros = "=1.10506.0"
libduckdb-sys = { version = "=1.10506.0", default-features = false, features = ["loadable-extension"] }
