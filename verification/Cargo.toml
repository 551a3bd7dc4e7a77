[package]
name = "quad_pipeline"
version = "0.1.0"
edition = "2021"
publish = false

[dependencies]
futures = "0.3"
gl_matrix = "*"
js-sys = "0.3"
wasm-bindgen = "0.2"
wasm-bindgen-futures = "0.4"
web-sys = { version = "0.3", features = ["console", "Window", "Document", "Element", "HtmlElement", "Node", "HtmlCanvasElement", "Response", "WebGl2RenderingContext", "WebGlShader", "WebGlProgram", "WebGlBuffer", "WebGlUniformLocation"] }
