[package]
name = "sim_settings"
version = "0.1.0"
edition = "2021"
publish = false

[dependencies]
bytemuck = "1"
egui = "0.22"
native-dialog = "0.7"
