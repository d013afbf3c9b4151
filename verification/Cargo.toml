[package]
name = "next-transform-dynamic"
version = "0.1.0"
edition = "2021"
publish = false

[dependencies]
pathdiff = "0.2"
swc_core = { version = "*", features = ["common", "ecma_ast", "ecma_utils", "ecma_visit"] }
