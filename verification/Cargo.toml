[package]
name = "onnx_ml_test"
version = "0.1.0"
edition = "2021"
publish = false

[dependencies]
image = { version = "=0.25.10", default-features = false, features = ["bmp", "dds", "exr", "ff", "gif", "hdr", "ico", "jpeg", "png", "pnm", "qoi", "tga", "tiff", "webp"] }
ndarray = "=0.17.2"
ort = { version = "=2.0.0-rc.15", default-features = false, features = ["ndarray", "load-dynamic"] }
