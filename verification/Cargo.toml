[package]
name = "glycin"
version = "0.1.0"
edition = "2021"
publish = false

[dependencies]
gufo-common = "=2.0.0"
gufo-exif = "=0.5.4"
gufo-jpeg = { version = "=0.5.1", features = ["encoder"] }
gufo-png = "=0.5.0"
jpeg-encoder = "=0.7.1"
zune-jpeg = "=0.5.15"
image = { version = "=0.25.10", default-features = false, features = ["png", "jpeg", "bmp", "gif", "ico", "pnm", "qoi", "tga", "tiff", "webp", "dds", "ff", "exr"] }
serde = { version = "=1.0.229", features = ["derive"] }
thiserror = "=2.0.21"
nix = { version = "=0.31.3", features = ["fs", "process", "resource", "signal"] }
libseccomp = "=0.4.0"
memfd = "=0.6.6"
memmap = "=0.7.0"
libc = "=0.2.191"
glib = "=0.22.10"
gio = "=0.22.10"
lcms2 = "=6.2.0"
zbus = { version = "=5.19.0", features = ["p2p"] }

[dev-dependencies]
rmpv = "=1.3.1"
rmp-serde = "=1.3.1"
