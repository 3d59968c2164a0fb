[package]
name = "grpc-web-client"
version = "0.1.0"
edition = "2021"
publish = false

[dependencies]
bytes = "1"
futures = "0.3"
http = "0.2"
http-body = "0.4"
hyper = { version = "0.14", default-features = false }
js-sys = "0.3"
tonic = { version = "0.4", default-features = false }
wasm-bindgen = "0.2"
wasm-bindgen-futures = "0.4"
wasm-streams = "0.2"
web-sys = { version = "0.3", features = ["Headers", "ReadableStream", "Request", "RequestCredentials", "RequestInit", "RequestMode", "Response", "WorkerGlobalScope"] }
