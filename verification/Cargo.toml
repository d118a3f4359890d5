[package]
name = "framework_tool_tui"
version = "0.1.0"
edition = "2021"
publish = false

[dependencies]
dmidecode = "=1.0.1"
framework_lib = { version = "=0.6.6", default-features = false }
