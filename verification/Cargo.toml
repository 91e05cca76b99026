[package]
name = "chat_session"
version = "0.1.0"
edition = "2021"
publish = false

[dependencies]
serde_json = "1"
serde = { version = "1", features = ["derive"] }
log = "0.4"
yew = "0.19"
yew-agent = "0.1"
web-sys = { version = "0.3", features = ["HtmlInputElement"] }
futures = "0.3"
reqwasm = "0.5"
wasm-bindgen-futures = "0.4"
