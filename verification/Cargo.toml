[package]
name = "identity"
version = "0.1.0"
edition = "2021"
publish = false

[dependencies]
gettext-rs = { version = "=0.7.7", features = ["gettext-system"] }
serde = { version = "=1.0.229", features = ["derive"] }
serde_json = "=1.0.154"
glib = "=0.20.12"
gstreamer = "=0.23.7"
gtk4 = "0.9"
libadwaita = "0.7"
ashpd = "0.9"
gst-plugin-gtk4 = "0.13"
gst-plugin-dav1d = "0.13"
gst-plugin-webp = "0.13"
tracing = "0.1"
tracing-subscriber = { version = "0.3", features = ["env-filter"] }
tracing-chrome = "0.7"
tracing-tracy = "0.11"
