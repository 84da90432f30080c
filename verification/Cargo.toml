[package]
name = "hangar"
version = "0.1.0"
edition = "2021"
publish = false

[dependencies]
gloo-console = "=0.3.0"
gloo-net = "=0.6.0"
gloo-timers = "=0.3.0"
i18nrs = { version = "=0.1.10", features = ["yew"] }
log = "=0.4.34"
serde = { version = "=1.0.229", features = ["derive"] }
wasm-bindgen-futures = "=0.4.79"
wasm-logger = "=0.2.0"
web-sys = { version = "=0.3.106", features = ["Window", "Location", "Navigator", "HtmlInputElement", "HtmlTextAreaElement"] }
yew = { version = "=0.23.0", features = ["csr"] }
yew-router = "=0.20.0"
