[package]
name = "metal_obj"
version = "0.1.0"
edition = "2021"
publish = false

[dependencies]
cocoa = "*"
core-graphics-types = "*"
glam = "*"
metal = "*"
objc = "*"
raw-window-handle = "*"
tobj = "*"
winit = "*"
