[package]
name = "fmc_tfm"
version = "0.1.0"
edition = "2021"
publish = false

[dependencies]
hdf5-pure = "*"
serde = { version = "1", features = ["derive"] }
serde_json = "1"
rayon = "1"
image = { version = "0.25", default-features = false, features = ["png"] }
eframe = { version = "0.30", default-features = false, features = ["default_fonts", "glow", "x11"] }

[dev-dependencies]
tempfile = "3"
