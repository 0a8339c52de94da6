[package]
name = "optimization_lab"
version = "0.1.0"
edition = "2021"
publish = false

[dependencies]
egui_plot = "0.27"
plotters = { version = "0.3", default-features = false, features = ["bitmap_backend", "bitmap_encoder", "line_series", "full_palette"] }
image = { version = "0.24", default-features = false, features = ["png"] }
docx-rs = "0.4"
