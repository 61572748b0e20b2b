[package]
name = "xrizer"
version = "0.1.0"
edition = "2021"
publish = false

[dependencies]
slotmap = "1"
openxr = { version = "*", default-features = false, features = ["loaded"] }
glam = "*"
log = "0.4"
serde = { version = "1", features = ["derive"] }
serde_json = "1"
