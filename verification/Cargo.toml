[package]
name = "po_renderer"
version = "0.1.0"
edition = "2021"
publish = false

[dependencies]
backtrace = "0.3"
bytemuck = { version = "1", features = ["derive"] }
crossbeam = "0.8"
dotenv = "0.15"
egui_winit_platform = "0.14"
glam = { version = "0.20", features = ["bytemuck"] }
image = "0.23"
indexmap = "2"
log = "0.4"
maplit = "1"
puffin = "0.12"
puffin_egui = "0.15"
tracing-subscriber = { version = "0.2", features = ["env-filter"] }
winit = "0.26"
