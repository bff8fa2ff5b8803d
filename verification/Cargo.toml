[package]
name = "flat_bindgen"
version = "0.1.0"
edition = "2021"
publish = false

[dependencies]
eyre = "0.6"
flatbuffers = "*"
indexmap = "2"
planus-codegen = "*"
planus-translation = "*"
planus-types = "*"
pyo3 = "0.25"
