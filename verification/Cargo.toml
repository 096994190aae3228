[package]
name = "image_upload"
version = "0.1.0"
edition = "2021"
publish = false

[dependencies]
sanitize-filename = "*"
base64 = "0.21"
image = { version = "0.25", default-features = false, features = ["png", "jpeg", "gif", "bmp", "ico", "tiff", "webp", "pnm", "tga", "hdr"] }
actix-web = "4"
actix-multipart = "*"
futures = "0.3"
reqwest = "*"
