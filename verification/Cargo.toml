[package]
name = "face_embeddings"
version = "0.1.0"
edition = "2021"
publish = false

[dependencies]
anyhow = "1"
nalgebra = "*"
ndarray = "*"
opencv = "*"
tflite = "*"
