[package]
name = "luminous_portal"
version = "0.1.0"
edition = "2021"
publish = false

[dependencies]
calloop = "*"
enumflags2 = "*"
libwayshot = "*"
libwaysip = "*"
reis = { version = "*", features = ["calloop"] }
rustix = { version = "1", features = ["std"] }
serde = { version = "1", features = ["derive"] }
serde_repr = "*"
tokio = { version = "1", features = ["rt", "sync", "macros"] }
tracing = "*"
wayland-client = "*"
zbus = { version = "5", default-features = false, features = ["tokio"] }
