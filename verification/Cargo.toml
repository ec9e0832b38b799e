[package]
name = "chainrpc"
version = "0.1.0"
edition = "2021"
publish = false

[dependencies]
hex = "0.4"
futures = "0.3"
serde_json = { version = "1", features = ["raw_value"] }
tokio = { version = "1", features = ["rt-multi-thread", "time"] }
jsonrpsee = { version = "0.16", features = ["async-client", "client-ws-transport", "http-client"] }
