[package]
name = "ffi_boundary"
version = "0.1.0"
edition = "2021"
publish = false
