[package]
name = "autowallpaper"
version = "0.1.0"
edition = "2021"
publish = false

[dependencies]
serde = { version = "1", features = ["derive"] }
serde_json = "1"
chrono = "0.4"
ureq = { version = "2", default-features = false }
image = { version = "0.25", default-features = false, features = ["jpeg", "png"] }
ab_glyph = "0.2"
