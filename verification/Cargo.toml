[package]
name = "auth_engine"
version = "0.1.0"
edition = "2021"
publish = false

[dependencies]
base64 = "=0.13.1"
bcrypt = "=0.15.1"
magic-crypt = "=3.1.13"
rand = "=0.8.8"
serde_json = "=1.0.154"
url = "=2.5.8"
serde = { version = "=1.0.229", features = ["derive"] }
regex = "=1.13.1"
toml = "=0.8.23"
actix-web = { version = "=4.18.1", default-features = false, features = ["macros", "cookies"] }
actix-cors = "=0.7.2"
actix-rt = "=2.15.0"
actix-multipart = { version = "=0.7.2", default-features = false }
futures = "=0.3.34"
diesel = { version = "=2.3.14", default-features = false, features = ["postgres"] }
image = { version = "=0.25.10", default-features = false, features = ["png", "jpeg"] }
lettre = { version = "=0.11.23", default-features = false, features = ["builder", "smtp-transport", "rustls-tls"] }
tera = { version = "=1.20.1", default-features = false }
