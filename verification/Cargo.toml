[package]
name = "smart_brain_engine"
version = "0.1.0"
edition = "2021"
publish = false

[dependencies]
egui = "=0.27.2"
log = "0.4"
env_logger = { version = "0.11", default-features = false }
printpdf = { version = "=0.7.0", default-features = false }
rust_xlsxwriter = "0.64"
