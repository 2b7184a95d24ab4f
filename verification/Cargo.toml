[package]
name = "interactive_wallpaper"
version = "0.1.0"
edition = "2021"
publish = false

[dependencies]
anyhow = "*"
bytemuck = { version = "*", features = ["derive"] }
glam = { version = "*", features = ["bytemuck"] }
layershellev = "*"
pollster = "*"
wgpu = "*"
