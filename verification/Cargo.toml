[package]
name = "zero2prod"
version = "0.1.0"
edition = "2021"
publish = false

[dependencies]
validator = "*"
unicode-segmentation = "*"
rand = "*"
argon2 = "*"
base64 = "*"
url = "*"
chrono = "*"
serde = { version = "*", features = ["derive"] }
secrecy = "*"
config = { version = "*", default-features = false, features = ["yaml"] }
actix-web = { version = "*", default-features = false, features = ["macros"] }
reqwest = { version = "*", default-features = false, features = ["json"] }

[dev-dependencies]
fake = "*"
