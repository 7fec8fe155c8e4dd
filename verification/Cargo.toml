[package]
name = "shader_pipeline"
version = "0.1.0"
edition = "2021"
publish = false

[dependencies]
wasm-bindgen = "*"
js-sys = "*"
nalgebra-glm = "*"

[dependencies.web-sys]
version = "*"
features = [
    "Window",
    "Document",
    "Element",
    "HtmlElement",
    "HtmlCanvasElement",
    "WebGl2RenderingContext",
    "WebGlShader",
    "WebGlProgram",
    "WebGlBuffer",
    "WebGlUniformLocation",
    "WebGlVertexArrayObject",
]
