[package]
name = "node_viewer"
version = "0.1.0"
edition = "2021"
publish = false

[dependencies]
anyhow = "1"
eframe = { version = "=0.32.3", default-features = false, features = ["default_fonts", "glow", "persistence", "wayland", "x11"] }
egui = "=0.32.3"
env_logger = "0.11"
js-sys = "0.3"
log = "0.4"
quick-xml = "=0.38.4"
rfd = "0.15"
serde = { version = "1", features = ["derive"] }
serde-wasm-bindgen = "0.6"
wasm-bindgen = "0.2"
wasm-bindgen-futures = "0.4"
web-sys = { version = "0.3", features = ["Document", "Element", "Event", "EventTarget", "File", "FileList", "FileReader", "HtmlCanvasElement", "HtmlElement", "HtmlInputElement", "Window"] }
