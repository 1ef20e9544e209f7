[package]
name = "vst_gui"
version = "0.1.0"
edition = "2021"
publish = false

[dependencies]
gl = "*"
glfw = "*"
glyph_brush = "*"
parking_lot = "*"
raw-window-handle = "*"
vst = "*"
winapi = { version = "*", features = ["winuser", "windef"] }
