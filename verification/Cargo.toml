[package]
name = "custom_plot_backend"
version = "0.1.0"
edition = "2021"
publish = false

[dependencies]
iced = { version = "=0.2.0", features = ["canvas"] }
plotters = { version = "=0.3.0", default-features = false, features = ["line_series"] }
plotters-backend = "=0.3.7"
