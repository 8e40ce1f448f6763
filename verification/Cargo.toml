[package]
name = "minetest_gltf"
version = "1.1.1"
edition = "2021"
publish = false

[dependencies]
base64 = "=0.23.1"
image = "=0.25.10"
gltf = { version = "=1.4.1", features = ["KHR_lights_punctual", "extras"] }
cgmath = "=0.18.0"
