[package]
name = "media_endpoint"
version = "0.1.0"
edition = "2021"
publish = false

[dependencies]
actix-middleware-rfc7662 = "*"
actix-multipart = "0.4"
actix-web = { version = "4", default-features = false, features = ["macros"] }
awc = { version = "3", default-features = false }
base32 = "0.4"
chrono = { version = "0.4", default-features = false, features = ["now"] }
derive_more = "0.99"
dotenv = "0.15"
env_logger = "0.11"
futures = "0.3"
image = { version = "0.25", default-features = false, features = ["bmp", "dds", "ff", "gif", "hdr", "ico", "jpeg", "png", "pnm", "tga", "tiff", "webp"] }
mime = "0.3"
oauth2 = "4"
rand = "0.7"
rusoto_core = { version = "0.48", default-features = false, features = ["rustls"] }
rusoto_s3 = { version = "0.48", default-features = false, features = ["rustls"] }
serde = { version = "1", features = ["derive"] }
serde_json = "1"
tokio = { version = "1", features = ["io-util"] }
