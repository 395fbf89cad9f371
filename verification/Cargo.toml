[package]
name = "leftwm_display_servers"
version = "0.1.0"
edition = "2021"
publish = false

[dependencies]
nohash-hasher = "=0.2.0"
read_color = "=1.0.0"
x11rb = { version = "=0.13.2", features = ["cursor", "resource_manager", "randr", "xinerama"] }
x11-dl = "=2.21.0"
serde = { version = "=1.0.229", features = ["derive"] }
xcursor = "=0.3.11"
