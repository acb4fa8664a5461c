[package]
name = "protobuf-codegen-pure"
version = "0.1.0"
edition = "2021"
publish = false

[dependencies]
anyhow = "1"
protobuf = "3"
protobuf-codegen = "3"
thiserror = "1"
