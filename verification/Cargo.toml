[package]
name = "snapture"
version = "0.1.0"
edition = "2021"
publish = false

[dependencies]
url = "=2.5.8"
anyhow = "=1.0.104"
thiserror = "=2.0.21"
image = { version = "=0.25.10", default-features = false, features = ["png"] }
imageproc = { version = "=0.27.0", default-features = false, features = ["text"] }
ab_glyph = "=0.2.32"
fontdb = "=0.24.0"
arboard = "=3.7.0"
ashpd = { version = "=0.13.13", default-features = false, features = ["tokio", "screenshot"] }
tokio = { version = "=1.54.1", features = ["rt-multi-thread"] }
eframe = { version = "=0.32.3", default-features = false, features = ["glow", "x11", "default_fonts"] }
ocrs = "=0.13.1"
rten = "=0.26.0"
rten-imageproc = "=0.26.0"
