[package]
name = "stepflow_web"
version = "0.1.0"
edition = "2021"
publish = false

[dependencies]
stepflow = "*"
stepflow-json = "*"
stepflow-serde = "*"
serde_json = "*"
once_cell = "*"
tinyjson = "*"
wasm-bindgen = "*"
wee_alloc = "*"
