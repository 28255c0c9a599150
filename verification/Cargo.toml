[package]
name = "game_of_life"
version = "0.1.0"
edition = "2021"
publish = false

[dependencies]
bevy = { version = "0.17", default-features = false, features = ["std", "bevy_color", "bevy_window", "bevy_winit", "bevy_render", "bevy_sprite", "bevy_picking", "x11"] }
bevy_egui = { version = "0.38", default-features = false }
