[package]
name = "video_texture"
version = "0.1.0"
edition = "2021"
publish = false

[dependencies]
wgpu-types = "24"
bevy = { version = "0.16", default-features = false, features = ["std", "bevy_asset", "bevy_core_pipeline", "bevy_pbr", "bevy_render", "bevy_window", "bevy_winit", "webgpu", "x11"] }
web-sys = { version = "0.3", features = ["Document", "Element", "HtmlMediaElement", "HtmlVideoElement", "Window"] }
wasm-bindgen = "0.2"
console_error_panic_hook = "0.1"
