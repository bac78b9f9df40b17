[package]
name = "bw8"
version = "0.1.0"
edition = "2021"
publish = false

[dependencies]
egui = { version = "=0.28.1", default-features = false, features = ["default_fonts"] }
egui-winit = { version = "=0.28.1", default-features = false, features = ["x11"] }
winit = { version = "=0.29.15", default-features = false, features = ["x11", "rwh_06"] }
pollster = "=0.3.0"
spin_sleep_util = "=0.1.1"
modular-bitfield = "=0.11.2"
