[package]
name = "cosmic-theme-editor"
version = "0.1.0"
edition = "2021"
publish = false

[dependencies]
hex = "0.4"
palette = "0.6"
kmeans_colors = "0.5"
gtk4 = "0.4"
glib = "0.15"
gettext-rs = "0.7"
cascade = "1.0"
relm4-macros = "0.4"
once_cell = "1"
log = "0.4"
pretty_env_logger = "0.4"
anyhow = "1"

[dev-dependencies]
float-cmp = "0.9"
