[package]
name = "riff"
version = "0.1.0"
edition = "2021"
publish = false

[dependencies]
gio = "*"
glib = "*"
gtk4 = "*"
gdk4 = "*"
libadwaita = "*"
gettext-rs = "*"
serde = { version = "1", features = ["derive"] }
serde_json = "1"
librespot = { version = "*", default-features = false }
