[package]
name = "bsp_vis"
version = "0.1.0"
edition = "2021"
publish = false

[dependencies]
bzip2 = "=0.6.1"
log = "=0.4.34"
reqwest = { version = "=0.13.5", default-features = false, features = ["blocking", "form", "json"] }
serde = { version = "=1.0.229", features = ["derive"] }
zip = { version = "=8.6.0", default-features = false, features = ["deflate"] }
