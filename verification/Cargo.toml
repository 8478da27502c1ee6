[package]
name = "glbind"
version = "0.1.0"
edition = "2021"
publish = false

[dependencies]
web-sys = { version = "0.3", features = ["WebGlRenderingContext", "WebGlProgram", "WebGlShader", "WebGlUniformLocation", "WebGlBuffer"] }
wasm-bindgen = "0.2"
