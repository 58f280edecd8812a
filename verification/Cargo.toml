[package]
name = "kiss3d"
version = "0.1.0"
edition = "2021"
publish = false

[dependencies]
wgpu = "*"
winit = "0.30"
image = { version = "0.25", default-features = false }
glamx = "*"
wasm-bindgen = "*"
web-sys = { version = "0.3", features = ["Window", "Document", "Element", "HtmlElement", "HtmlCanvasElement", "CssStyleDeclaration", "DomRect", "EventTarget", "Node", "MouseEvent", "PointerEvent", "WheelEvent", "TouchEvent", "TouchList", "Touch", "KeyboardEvent"] }
