[package]
name = "sensemaker_widgets"
version = "0.1.0"
edition = "2021"
publish = false

[dependencies]
base64 = "=0.13.1"
hdk = "=0.0.134"
# hdk's entry macros expand to paths into these two crates.
holochain_deterministic_integrity = "=0.0.7"
serde = { version = "=1.0.229", features = ["derive"] }
js-sys = "=0.3.106"
# Not called from this crate: hdk reaches rmp-serde 0.15, which compiles
# against rmp up to 0.8.10 only.
rmp = "=0.8.10"
wasm-bindgen = "=0.2.129"
wasm-bindgen-futures = "=0.4.79"
weblog = "=0.3.0"
