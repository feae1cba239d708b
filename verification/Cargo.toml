[package]
name = "osrusbfx2"
version = "0.1.0"
edition = "2021"
publish = false

[dependencies]
widestring = "*"
lazy_static = "*"
wdk = "*"
wdk-sys = "*"
wdk-alloc = "*"
wdk-panic = "*"
win_etw_provider = "*"
win_etw_macros = "*"
windows-sys = { version = "*", features = ["Win32_Devices_Properties", "Win32_Foundation"] }
