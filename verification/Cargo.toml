[package]
name = "bookmark_bridge"
version = "0.1.0"
edition = "2021"
publish = false

[dependencies]
encoding_rs = "*"
url = "*"
http = "*"
rss = "*"
mime = "*"
worker = "*"
atrium-api = "*"
async-trait = "*"
wasm-bindgen = "*"
js-sys = "*"
webpage = "*"
html5ever = "*"
markup5ever_rcdom = "*"
