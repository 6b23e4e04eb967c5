[package]
name = "azul-layout"
version = "0.1.0"
edition = "2021"
publish = false

[dependencies]
azul-core = { version = "=0.0.2", default-features = false }
azul-css = "=0.0.1"
azul-text-layout = "=0.0.4"
