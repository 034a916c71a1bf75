[package]
name = "tiez_shell"
version = "0.1.0"
edition = "2021"
publish = false

[dependencies]
hound = "3.5"
serde_json = "1"
chrono = { version = "0.4", default-features = false, features = ["alloc", "now"] }
reqwest = { version = "0.12", default-features = false, features = ["blocking"] }
global-hotkey = "0.7"
