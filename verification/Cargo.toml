[package]
name = "mvt_reader"
version = "0.1.0"
edition = "2021"
publish = false

[dependencies]
geo-types = "0.7"
geojson = "0.24"
js-sys = "0.3"
prost = "0.13"
serde = { version = "1", features = ["derive"] }
serde-wasm-bindgen = "0.6"
serde_json = "1"
wasm-bindgen = "0.2"
