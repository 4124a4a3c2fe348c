[package]
name = "egui_debug_derive"
version = "0.1.0"
edition = "2021"
publish = false

[dependencies]
bevy = { version = "=0.7.0", default-features = false }
bevy_egui = { version = "=0.14.0", default-features = false }
darling = "=0.13.4"
syn = { version = "=1.0.109", features = ["full"] }

[dev-dependencies]
proc-macro2 = "=1.0.107"
