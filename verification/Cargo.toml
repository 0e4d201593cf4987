[package]
name = "onnx_tensor"
version = "0.1.0"
edition = "2021"
publish = false

[dependencies]
ndarray = "0.15"
onnxruntime-sys = "0.0.14"
