[package]
name = "video_compare"
version = "0.1.0"
edition = "2021"
publish = false

[dependencies]
euclid = "0.22"
glow = "0.14"
gstreamer = "0.23"
gstreamer-app = "0.23"
gstreamer-pbutils = "0.23"
gstreamer-video = "0.23"
rfd = { version = "0.15", default-features = false, features = ["gtk3"] }
slint = { version = "1.8", default-features = false, features = ["std", "compat-1-2"] }
