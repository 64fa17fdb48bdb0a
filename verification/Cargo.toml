[package]
name = "godot_onnx"
version = "0.1.0"
edition = "2021"
publish = false

[dependencies]
godot = "=0.5.5"
ndarray = "=0.17.2"
ort = { version = "=2.0.0-rc.15", default-features = false, features = ["std", "ndarray", "load-dynamic", "coreml", "webgpu"] }
