[package]
name = "ifs_render"
version = "0.1.0"
edition = "2021"
publish = false

[dependencies]
anyhow = "=1.0.104"
eframe = { version = "=0.31.1", default-features = false, features = ["default_fonts", "glow", "x11"] }
egui_extras = { version = "=0.31.1", default-features = false, features = ["image"] }
formulac = "=0.6.0"
image = { version = "=0.25.10", default-features = false, features = ["png"] }
num-complex = "=0.4.6"
rand = "=0.9.5"
rand_distr = "=0.5.1"
rayon = "=1.12.0"
