[package]
name = "translator"
version = "0.1.0"
edition = "2021"
publish = false

[dependencies]
html-escape = "=0.2.15"
actix-web = "=4.15.0"
actix-files = "=0.7.0"
env_logger = "=0.11.11"
log = "=0.4.34"
redis = "=1.7.1"
serde = { version = "=1.0.229", features = ["derive"] }
serde_json = "=1.0.151"
google-translate3 = { version = "=7.0.0+20250424", features = ["yup-oauth2-service-account"] }
