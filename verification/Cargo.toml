[package]
name = "process_supervisor"
version = "0.1.0"
edition = "2021"
publish = false

[dependencies]
futures = "0.3"
js-sys = "0.3"
node-sys = "*"
thiserror = "1"
wasm-bindgen = "0.2"
workflow-core = "*"
workflow-log = "*"
workflow-wasm = "*"
