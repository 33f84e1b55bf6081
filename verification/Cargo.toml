[package]
name = "lsp_main_loop"
version = "0.1.0"
edition = "2021"
publish = false

[dependencies]
crossbeam-channel = "0.3.8"
failure = "0.1.5"
failure_derive = "0.1.5"
log = "0.4"
lsp-types = "0.57"
rustc-hash = "1"
serde = { version = "1", features = ["derive"] }
serde_json = "1"
threadpool = "1.7"
