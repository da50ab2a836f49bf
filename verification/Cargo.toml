[package]
name = "react_display_name"
version = "0.1.0"
edition = "2021"
publish = false

[dependencies]
swc_plugin = "=0.88.2"
swc_ecma_parser = "=0.116.0"
swc_ecma_transforms_testing = "0.104"
