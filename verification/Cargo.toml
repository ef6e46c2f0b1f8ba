[package]
name = "marker_driver"
version = "0.1.0"
edition = "2021"
publish = false

[dependencies]
camino = "*"
miette = { version = "*", features = ["fancy"] }
thiserror = "*"
tracing-error = "*"
yansi = "*"
bumpalo = "*"
rustc-hash = "*"
rustc_tools_util = "*"
marker_api = "*"
marker_adapter = "*"
