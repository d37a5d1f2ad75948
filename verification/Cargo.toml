[package]
name = "simchat"
version = "0.1.0"
edition = "2021"
publish = false

[dependencies]
sled = "=0.34.7"
bincode = "=2.0.1"
serde_json = "=1.0.154"
serde = { version = "=1.0.229", features = ["derive"] }
toml = "=0.8.23"
anyhow = "=1.0.104"
thiserror = "=2.0.21"
log = "=0.4.35"
tokio = { version = "=1.54.1", features = ["rt-multi-thread", "macros", "net"] }
axum = "=0.8.9"
tower = "=0.5.3"
tower-http = { version = "=0.6.11", features = ["fs"] }
redis = { version = "=0.27.6", features = ["tokio-comp"] }
reqwest = { version = "=0.12.28", default-features = false }
uuid = { version = "=1.29.1", features = ["v4"] }
tracing-subscriber = "=0.3.23"
yew = { version = "0.21", features = ["csr"] }
yew-router = "0.18"
gloo = "0.11"
gloo-timers = { version = "0.3", features = ["futures"] }
wasm-bindgen = "0.2"
wasm-bindgen-futures = "0.4"
js-sys = "0.3"
wasm-logger = "0.2"
web-sys = { version = "0.3", features = ["WebSocket", "MessageEvent", "CloseEvent", "ErrorEvent", "HtmlTextAreaElement", "HtmlInputElement", "HtmlElement", "Window", "Location", "Event", "EventTarget"] }
