[package]
name = "iced_graph_editor"
version = "0.1.0"
edition = "2021"
publish = false

[dependencies]
iced = { version = "0.7", default-features = false, features = ["glow", "canvas"] }
iced_native = "0.8"
iced_graphics = { version = "0.6", features = ["canvas"] }
iced_style = "0.6"
