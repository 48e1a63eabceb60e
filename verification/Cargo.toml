[package]
name = "wellick"
version = "0.1.0"
edition = "2021"
publish = false

[dependencies]
cranelift = "=0.135.5"
cranelift-codegen = "=0.135.5"
cranelift-frontend = "=0.135.5"
cranelift-module = "=0.135.5"
cranelift-native = "=0.135.5"
cranelift-object = "=0.135.5"
