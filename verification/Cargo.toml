[package]
name = "bevy_egui"
version = "0.31.0"
edition = "2021"
publish = false

[dependencies]
egui = { version = "=0.29.1", default-features = false }
bevy_math = "=0.15.3"
bevy_utils = "=0.15.3"
bytemuck = "=1.25.2"
crossbeam-channel = "=0.5.17"
bevy_ecs = "=0.15.4"
bevy_input = "=0.15.3"
bevy_window = "=0.15.3"
bevy_app = "=0.15.3"
bevy_asset = "=0.15.3"
bevy_render = { version = "=0.15.3", default-features = false }
bevy_image = "=0.15.3"
bevy_time = "=0.15.3"
bevy_derive = "=0.15.3"
bevy_log = "=0.15.3"
encase = "=0.10.0"
wgpu-types = "=23.0.0"
arboard = { version = "=3.7.0", default-features = false }
thread_local = "=1.1.10"
webbrowser = "=1.2.6"
wasm-bindgen = "=0.2.130"
wasm-bindgen-futures = "=0.4.80"
web-sys = { version = "=0.3.107", features = ["Window", "Document", "Element", "HtmlElement", "HtmlInputElement", "CssStyleDeclaration", "EventTarget", "Node", "Navigator", "Clipboard", "ClipboardEvent", "DataTransfer", "KeyboardEvent", "InputEvent", "TouchEvent"] }
