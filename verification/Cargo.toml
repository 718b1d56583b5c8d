[package]
name = "lamp_drpc"
version = "0.1.0"
edition = "2021"
publish = false

[dependencies]
audiotags = "=0.5.0"
catbox = "=0.8.2"
chrono = { version = "=0.4.45", default-features = false, features = ["clock"] }
claxon = "=0.4.3"
crc = "=3.4.0"
discord-presence = "=3.2.0"
fast_image_resize = { version = "=6.1.0", features = ["image"] }
id3 = "=1.17.2"
image = { version = "=0.25.10", default-features = false, features = ["jpeg", "png"] }
reqwest = { version = "=0.12.28", default-features = false }
serde = { version = "=1.0.229", features = ["derive"] }
serde_json = "=1.0.154"
sysinfo = { version = "=0.39.6", default-features = false, features = ["system"] }
toml = "=1.1.8"
trpl = "*"
