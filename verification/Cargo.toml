[package]
name = "zsozso"
version = "0.1.0"
edition = "2021"
publish = false

[dependencies]
serde_json = "1"
qrcode = { version = "*", default-features = false, features = ["svg"] }
zeroize = "1"
js-sys = "0.3"
wasm-bindgen = "0.2"
wasm-bindgen-futures = "0.4"
web-sys = { version = "0.3", features = ["Window", "Storage", "Location", "Navigator", "Clipboard", "console"] }
gloo-timers = { version = "0.3", features = ["futures"] }
arboard = { version = "3", default-features = false }
reqwest = { version = "0.12", default-features = false, features = ["json"] }
dioxus = { version = "0.6", default-features = false, features = ["macro", "html", "signals", "hooks", "launch", "web"] }
