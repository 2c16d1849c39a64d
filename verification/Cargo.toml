[package]
name = "couch_gui"
version = "0.1.0"
edition = "2021"
publish = false

[dependencies]
image = { version = "=0.24.9", default-features = false, features = ["png"] }
libc = "=0.2.191"
serde_json = "=1.0.154"
slint = { version = "=1.8.0", default-features = false, features = ["compat-1-2", "renderer-software", "std"] }
