[package]
name = "cobalt_render"
version = "0.1.0"
edition = "2021"
publish = false

[dependencies]
pulldown-cmark = "=0.13.4"
katex = "=0.4.6"
svgbob = "=0.7.6"
liquid = "=0.23.1"
liquid-core = "=0.23.2"
liquid-lib = { version = "=0.23.1", features = ["stdlib", "jekyll", "shopify", "extra"] }
